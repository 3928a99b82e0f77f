//! The board's state filter and its columns.

use wyrtloom_dashboard::kanban::{group_by_state, parse_states, state_named, TaskState};

const ALL: [TaskState; 7] = [
    TaskState::Backlog,
    TaskState::Todo,
    TaskState::Ready,
    TaskState::Running,
    TaskState::Blocked,
    TaskState::Done,
    TaskState::Archived,
];

#[test]
fn absent_and_blank_filters_select_everything() {
    assert_eq!(parse_states(None), Ok(None));
    assert_eq!(parse_states(Some("")), Ok(None));
    assert_eq!(parse_states(Some(" \t\u{a0}")), Ok(None));
}

#[test]
fn names_are_read_in_order() {
    assert_eq!(
        parse_states(Some("Todo,Running")),
        Ok(Some(vec![TaskState::Todo, TaskState::Running]))
    );
    assert_eq!(
        parse_states(Some(" Done ,\tDone\n")),
        Ok(Some(vec![TaskState::Done, TaskState::Done]))
    );
}

#[test]
fn first_unknown_name_is_reported() {
    assert_eq!(parse_states(Some("Todo,Doing,Nope")), Err("unknown state 'Doing'".to_string()));
    assert_eq!(parse_states(Some("todo")), Err("unknown state 'todo'".to_string()));
    assert_eq!(parse_states(Some("Todo,")), Err("unknown state ''".to_string()));
    assert_eq!(parse_states(Some(",")), Err("unknown state ''".to_string()));
    assert_eq!(parse_states(Some(" To do ")), Err("unknown state 'To do'".to_string()));
}

#[test]
fn every_selection_can_be_written() {
    let text = ALL.iter().map(|state| state.name()).collect::<Vec<_>>().join(",");
    assert_eq!(parse_states(Some(&text)), Ok(Some(ALL.to_vec())));
    for state in ALL {
        assert_eq!(state_named(state.name()), Some(state));
    }
    assert_eq!(state_named("Backlog "), None);
}

#[test]
fn columns_partition_the_listing() {
    let states = vec![
        TaskState::Todo,
        TaskState::Running,
        TaskState::Todo,
        TaskState::Archived,
        TaskState::Blocked,
        TaskState::Backlog,
    ];
    let columns = group_by_state(&states);
    let shape: Vec<(&str, Vec<usize>)> =
        columns.iter().map(|column| (column.state.name(), column.tasks.clone())).collect();
    assert_eq!(
        shape,
        vec![
            ("Archived", vec![3]),
            ("Backlog", vec![5]),
            ("Blocked", vec![4]),
            ("Running", vec![1]),
            ("Todo", vec![0, 2]),
        ]
    );
    let names: Vec<&str> = columns.iter().map(|column| column.state.name()).collect();
    let mut sorted = names.clone();
    sorted.sort();
    assert_eq!(names, sorted);
    assert!(group_by_state(&vec![]).is_empty());
}
