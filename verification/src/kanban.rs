//! Board states, the board's state filter, and the grouping of tasks into
//! columns.

use vstd::prelude::*;
use vstd::string::*;

use crate::text::{
    blank_is_trimmed_away, is_white_space, pieces, pieces_joined, pieces_of_unbroken, same_text,
    split, to_chars, trim, trimmed, trimmed_keeps_the_rest,
};

verus! {

/// The states that a task can be in.
#[derive(Debug, Clone, Copy, PartialEq, Eq, Structural)]
pub enum TaskState {
    Backlog,
    Todo,
    Ready,
    Running,
    Blocked,
    Done,
    Archived,
}

impl TaskState {
    /// The state's name, as it is queried and serialised.
    pub open spec fn spec_name(self) -> Seq<char> {
        match self {
            TaskState::Backlog => "Backlog"@,
            TaskState::Todo => "Todo"@,
            TaskState::Ready => "Ready"@,
            TaskState::Running => "Running"@,
            TaskState::Blocked => "Blocked"@,
            TaskState::Done => "Done"@,
            TaskState::Archived => "Archived"@,
        }
    }

    /// The state's name, as it is queried and serialised.
    pub fn name(self) -> (name: &'static str)
        ensures
            name@ == self.spec_name(),
    {
        match self {
            TaskState::Backlog => "Backlog",
            TaskState::Todo => "Todo",
            TaskState::Ready => "Ready",
            TaskState::Running => "Running",
            TaskState::Blocked => "Blocked",
            TaskState::Done => "Done",
            TaskState::Archived => "Archived",
        }
    }
}

/// The state of this name.
pub open spec fn state_of(name: Seq<char>) -> Option<TaskState> {
    if name == "Backlog"@ {
        Some(TaskState::Backlog)
    } else if name == "Todo"@ {
        Some(TaskState::Todo)
    } else if name == "Ready"@ {
        Some(TaskState::Ready)
    } else if name == "Running"@ {
        Some(TaskState::Running)
    } else if name == "Blocked"@ {
        Some(TaskState::Blocked)
    } else if name == "Done"@ {
        Some(TaskState::Done)
    } else if name == "Archived"@ {
        Some(TaskState::Archived)
    } else {
        None
    }
}

/// Finds the state of this name.
pub fn state_named(name: &str) -> (state: Option<TaskState>)
    ensures
        state == state_of(name@),
{
    if same_text(name, "Backlog") {
        Some(TaskState::Backlog)
    } else if same_text(name, "Todo") {
        Some(TaskState::Todo)
    } else if same_text(name, "Ready") {
        Some(TaskState::Ready)
    } else if same_text(name, "Running") {
        Some(TaskState::Running)
    } else if same_text(name, "Blocked") {
        Some(TaskState::Blocked)
    } else if same_text(name, "Done") {
        Some(TaskState::Done)
    } else if same_text(name, "Archived") {
        Some(TaskState::Archived)
    } else {
        None
    }
}

// ---------------------------------------------------------------------------
// State filter
// ---------------------------------------------------------------------------

/// The position of the first token that names no state, white space at its
/// ends aside; the length if every token names one.
pub open spec fn first_unknown(tokens: Seq<Seq<char>>) -> nat
    decreases tokens.len(),
{
    if tokens.len() == 0 || state_of(trimmed(tokens[0])) is None {
        0
    } else {
        first_unknown(tokens.drop_first()) + 1
    }
}

/// The states that the tokens name.
pub open spec fn states_of(tokens: Seq<Seq<char>>) -> Seq<TaskState> {
    tokens.map_values(|token: Seq<char>| state_of(trimmed(token))->0)
}

/// The states that a query selects: `None` for all of them, which an absent or
/// blank query means; otherwise the states of its comma-separated names, or
/// the message for the first name that is unknown.
pub open spec fn selected(query: Option<Seq<char>>) -> Result<Option<Seq<TaskState>>, Seq<char>> {
    match query {
        None => Ok(None),
        Some(text) => if trimmed(text).len() == 0 {
            Ok(None)
        } else {
            let tokens = pieces(text, ',');
            let unknown = first_unknown(tokens);
            if unknown == tokens.len() {
                Ok(Some(states_of(tokens)))
            } else {
                Err("unknown state '"@ + trimmed(tokens[unknown as int]) + "'"@)
            }
        },
    }
}

/// What pins [`first_unknown`] down.
proof fn first_unknown_is(tokens: Seq<Seq<char>>, at: nat)
    requires
        at <= tokens.len(),
        forall|i: int| 0 <= i < at ==> state_of(trimmed(#[trigger] tokens[i])) is Some,
        at < tokens.len() ==> state_of(trimmed(tokens[at as int])) is None,
    ensures
        first_unknown(tokens) == at,
    decreases tokens.len(),
{
    if at > 0 {
        let rest = tokens.drop_first();
        assert forall|i: int| 0 <= i < at - 1 implies state_of(
            trimmed(#[trigger] rest[i]),
        ) is Some by {
            assert(rest[i] == tokens[i + 1]);
        }
        assert(state_of(trimmed(tokens[0])) is Some);
        first_unknown_is(rest, (at - 1) as nat);
    }
}

/// A query as contracts see it.
pub open spec fn query_view(query: Option<&str>) -> Option<Seq<char>> {
    match query {
        Some(text) => Some(text@),
        None => None,
    }
}

/// Optional states as contracts see them.
pub open spec fn states_view(states: Option<Vec<TaskState>>) -> Option<Seq<TaskState>> {
    match states {
        Some(states) => Some(states@),
        None => None,
    }
}

/// Reads the board's state filter.
pub fn parse_states(query: Option<&str>) -> (result: Result<Option<Vec<TaskState>>, String>)
    ensures
        match result {
            Ok(states) => selected(query_view(query)) == Ok::<Option<Seq<TaskState>>, Seq<char>>(
                states_view(states),
            ),
            Err(message) => selected(query_view(query)) == Err::<
                Option<Seq<TaskState>>,
                Seq<char>,
            >(message@),
        },
{
    let text = match query {
        Some(text) => text,
        None => {
            return Ok(None);
        },
    };
    let chars = to_chars(text);
    let blank = to_chars(trim(&chars).as_str());
    if blank.len() == 0 {
        return Ok(None);
    }
    let parts = split(&chars, ',');
    let ghost tokens = pieces(text@, ',');
    let mut states: Vec<TaskState> = Vec::new();
    let mut i: usize = 0;
    while i < parts.len()
        invariant
            i <= parts@.len(),
            parts@.map_values(|part: Vec<char>| part@) == tokens,
            states@ == states_of(tokens).take(i as int),
            forall|j: int| 0 <= j < i ==> state_of(trimmed(#[trigger] tokens[j])) is Some,
            tokens == pieces(text@, ','),
            trimmed(text@).len() != 0,
            query == Some(text),
        decreases parts@.len() - i,
    {
        assert(tokens[i as int] == parts@[i as int]@);
        let name = trim(&parts[i]);
        match state_named(name.as_str()) {
            Some(state) => {
                states.push(state);
                assert(states@ =~= states_of(tokens).take(i + 1));
            },
            None => {
                let mut message = "unknown state '".to_owned();
                message.append(name.as_str());
                message.append("'");
                proof {
                    first_unknown_is(tokens, i as nat);
                }
                return Err(message);
            },
        }
        i += 1;
    }
    proof {
        first_unknown_is(tokens, i as nat);
    }
    assert(states@ =~= states_of(tokens));
    Ok(Some(states))
}

proof fn reveal_names()
    ensures
        "Backlog"@ == seq!['B', 'a', 'c', 'k', 'l', 'o', 'g'],
        "Todo"@ == seq!['T', 'o', 'd', 'o'],
        "Ready"@ == seq!['R', 'e', 'a', 'd', 'y'],
        "Running"@ == seq!['R', 'u', 'n', 'n', 'i', 'n', 'g'],
        "Blocked"@ == seq!['B', 'l', 'o', 'c', 'k', 'e', 'd'],
        "Done"@ == seq!['D', 'o', 'n', 'e'],
        "Archived"@ == seq!['A', 'r', 'c', 'h', 'i', 'v', 'e', 'd'],
{
    reveal_strlit("Backlog");
    reveal_strlit("Todo");
    reveal_strlit("Ready");
    reveal_strlit("Running");
    reveal_strlit("Blocked");
    reveal_strlit("Done");
    reveal_strlit("Archived");
    assert("Backlog"@ =~= seq!['B', 'a', 'c', 'k', 'l', 'o', 'g']);
    assert("Todo"@ =~= seq!['T', 'o', 'd', 'o']);
    assert("Ready"@ =~= seq!['R', 'e', 'a', 'd', 'y']);
    assert("Running"@ =~= seq!['R', 'u', 'n', 'n', 'i', 'n', 'g']);
    assert("Blocked"@ =~= seq!['B', 'l', 'o', 'c', 'k', 'e', 'd']);
    assert("Done"@ =~= seq!['D', 'o', 'n', 'e']);
    assert("Archived"@ =~= seq!['A', 'r', 'c', 'h', 'i', 'v', 'e', 'd']);
}

/// Every state is found by its own name, and by no other.
pub proof fn names_identify_states(state: TaskState, name: Seq<char>)
    ensures
        state_of(name) == Some(state) <==> name == state.spec_name(),
{
    reveal_names();
    assert("Backlog"@[0] == 'B' && "Backlog"@[1] == 'a');
    assert("Blocked"@[0] == 'B' && "Blocked"@[1] == 'l');
    assert("Ready"@[0] == 'R' && "Ready"@[1] == 'e');
    assert("Running"@[0] == 'R' && "Running"@[1] == 'u');
    assert("Todo"@[0] == 'T' && "Done"@[0] == 'D' && "Archived"@[0] == 'A');
}

/// The query that selects these states: their names, separated by commas.
pub open spec fn written(states: Seq<TaskState>) -> Seq<char>
    decreases states.len(),
{
    if states.len() <= 1 {
        states.last().spec_name()
    } else {
        written(states.drop_last()).push(',') + states.last().spec_name()
    }
}

proof fn name_is_plain(state: TaskState)
    ensures
        state.spec_name().len() > 0,
        !state.spec_name().contains(','),
        !is_white_space(state.spec_name()[0]),
        !is_white_space(state.spec_name().last()),
        trimmed(state.spec_name()) == state.spec_name(),
{
    reveal_names();
    match state {
        TaskState::Backlog => {},
        TaskState::Todo => {},
        TaskState::Ready => {},
        TaskState::Running => {},
        TaskState::Blocked => {},
        TaskState::Done => {},
        TaskState::Archived => {},
    }
}

/// What a written query is made of.
proof fn written_query(states: Seq<TaskState>)
    requires
        states.len() > 0,
    ensures
        written(states).len() > 0,
        trimmed(written(states)) == written(states),
        !is_white_space(written(states)[0]),
        pieces(written(states), ',') == states.map_values(|state: TaskState| state.spec_name()),
    decreases states.len(),
{
    let names = |state: TaskState| state.spec_name();
    name_is_plain(states.last());
    if states.len() == 1 {
        pieces_of_unbroken(written(states), ',');
        assert(states.map_values(names) =~= seq![written(states)]);
    } else {
        let earlier = states.drop_last();
        written_query(earlier);
        pieces_joined(written(earlier), states.last().spec_name(), ',');
        assert(states.map_values(names) =~= earlier.map_values(names).push(
            states.last().spec_name(),
        ));
        assert(written(states)[0] == written(earlier)[0]);
        assert(written(states).last() == states.last().spec_name().last());
    }
}

/// Any selection of states can be asked for: the query that lists their names
/// selects exactly them, in that order.
pub proof fn written_query_selects(states: Seq<TaskState>)
    requires
        states.len() > 0,
    ensures
        selected(Some(written(states))) == Ok::<Option<Seq<TaskState>>, Seq<char>>(Some(states)),
{
    written_query(states);
    let tokens = pieces(written(states), ',');
    assert forall|i: int| 0 <= i < tokens.len() implies state_of(trimmed(#[trigger] tokens[i]))
        == Some(states[i]) by {
        name_is_plain(states[i]);
        names_identify_states(states[i], tokens[i]);
    }
    first_unknown_is(tokens, tokens.len());
    assert(states_of(tokens) =~= states);
}

/// A query of white space alone selects every state.
pub proof fn blank_queries_select_everything(text: Seq<char>)
    requires
        forall|i: int| 0 <= i < text.len() ==> is_white_space(#[trigger] text[i]),
    ensures
        selected(None) == Ok::<Option<Seq<TaskState>>, Seq<char>>(None),
        selected(Some(text)) == Ok::<Option<Seq<TaskState>>, Seq<char>>(None),
{
    blank_is_trimmed_away(text);
}

/// What a query selects is what its comma-separated names, white space at their
/// ends aside, are the names of, one for one; and a query with a name that no
/// state has selects nothing, and the first such name is told.
pub proof fn queries_select_what_they_name(text: Seq<char>, states: Seq<TaskState>, at: nat)
    requires
        exists|i: int| 0 <= i < text.len() && !is_white_space(#[trigger] text[i]),
    ensures
        selected(Some(text)) == Ok::<Option<Seq<TaskState>>, Seq<char>>(Some(states)) <==> {
            &&& pieces(text, ',').len() == states.len()
            &&& forall|i: int|
                0 <= i < states.len() ==> trimmed(#[trigger] pieces(text, ',')[i])
                    == states[i].spec_name()
        },
        at < pieces(text, ',').len() && (forall|i: int|
            0 <= i < at ==> exists|state: TaskState|
                trimmed(#[trigger] pieces(text, ',')[i]) == #[trigger] state.spec_name()) && (forall|
            state: TaskState,
        |
            trimmed(pieces(text, ',')[at as int]) != #[trigger] state.spec_name()) ==> selected(
            Some(text),
        ) == Err::<Option<Seq<TaskState>>, Seq<char>>(
            "unknown state '"@ + trimmed(pieces(text, ',')[at as int]) + "'"@,
        ),
        selected(Some(text)) != Ok::<Option<Seq<TaskState>>, Seq<char>>(None),
{
    trimmed_keeps_the_rest(text);
    let tokens = pieces(text, ',');
    known_before(tokens);
    let unknown = first_unknown(tokens);
    assert forall|state: TaskState, name: Seq<char>| #[trigger] state_of(name) == Some(state)
        <==> name == #[trigger] state.spec_name() by {
        names_identify_states(state, name);
    }
    let all = states_of(tokens);
    if unknown == tokens.len() {
        assert forall|i: int| 0 <= i < tokens.len() implies trimmed(#[trigger] tokens[i])
            == all[i].spec_name() by {
            names_identify_states(all[i], trimmed(tokens[i]));
        }
    }
    if tokens.len() == states.len() && (forall|i: int|
        0 <= i < states.len() ==> trimmed(#[trigger] tokens[i]) == states[i].spec_name()) {
        assert forall|i: int| 0 <= i < tokens.len() implies state_of(trimmed(#[trigger] tokens[i]))
            == Some(states[i]) by {
            names_identify_states(states[i], trimmed(tokens[i]));
        }
        first_unknown_is(tokens, tokens.len());
        assert(all =~= states);
    }
    if at < tokens.len() && (forall|i: int|
        0 <= i < at ==> exists|state: TaskState|
            trimmed(#[trigger] tokens[i]) == #[trigger] state.spec_name()) && (forall|
        state: TaskState,
    |
        trimmed(tokens[at as int]) != #[trigger] state.spec_name()) {
        assert forall|i: int| 0 <= i < at implies state_of(
            trimmed(#[trigger] tokens[i]),
        ) is Some by {
            let state = choose|state: TaskState|
                trimmed(tokens[i]) == #[trigger] state.spec_name();
            names_identify_states(state, trimmed(tokens[i]));
        }
        match state_of(trimmed(tokens[at as int])) {
            Some(state) => {
                names_identify_states(state, trimmed(tokens[at as int]));
            },
            None => {},
        }
        first_unknown_is(tokens, at);
    }
}

proof fn known_before(tokens: Seq<Seq<char>>)
    ensures
        first_unknown(tokens) <= tokens.len(),
        forall|i: int|
            0 <= i < first_unknown(tokens) ==> state_of(trimmed(#[trigger] tokens[i])) is Some,
        first_unknown(tokens) < tokens.len() ==> state_of(
            trimmed(tokens[first_unknown(tokens) as int]),
        ) is None,
    decreases tokens.len(),
{
    if tokens.len() > 0 && state_of(trimmed(tokens[0])) is Some {
        let rest = tokens.drop_first();
        known_before(rest);
        assert forall|i: int| 0 <= i < first_unknown(tokens) implies state_of(
            trimmed(#[trigger] tokens[i]),
        ) is Some by {
            if i > 0 {
                assert(tokens[i] == rest[i - 1]);
            }
        }
    }
}

/// The states are named as the API documents them.
pub proof fn states_have_their_documented_names(state: TaskState)
    ensures
        state.spec_name() == match state {
            TaskState::Backlog => seq!['B', 'a', 'c', 'k', 'l', 'o', 'g'],
            TaskState::Todo => seq!['T', 'o', 'd', 'o'],
            TaskState::Ready => seq!['R', 'e', 'a', 'd', 'y'],
            TaskState::Running => seq!['R', 'u', 'n', 'n', 'i', 'n', 'g'],
            TaskState::Blocked => seq!['B', 'l', 'o', 'c', 'k', 'e', 'd'],
            TaskState::Done => seq!['D', 'o', 'n', 'e'],
            TaskState::Archived => seq!['A', 'r', 'c', 'h', 'i', 'v', 'e', 'd'],
        },
{
    reveal_names();
}

// ---------------------------------------------------------------------------
// Columns
// ---------------------------------------------------------------------------

/// One column of the board: a state, and the positions of its tasks in the
/// listing.
#[derive(Debug)]
pub struct Column {
    pub state: TaskState,
    pub tasks: Vec<usize>,
}

/// A column as contracts see it.
pub struct ColumnView {
    pub state: TaskState,
    pub tasks: Seq<usize>,
}

impl View for Column {
    type V = ColumnView;

    open spec fn view(&self) -> ColumnView {
        ColumnView { state: self.state, tasks: self.tasks@ }
    }
}

/// The states in the order of their names.
pub open spec fn name_order() -> Seq<TaskState> {
    seq![
        TaskState::Archived,
        TaskState::Backlog,
        TaskState::Blocked,
        TaskState::Done,
        TaskState::Ready,
        TaskState::Running,
        TaskState::Todo,
    ]
}

/// The positions at which a task is in this state, in order.
pub open spec fn positions(states: Seq<TaskState>, state: TaskState) -> Seq<usize>
    decreases states.len(),
{
    if states.len() == 0 {
        Seq::empty()
    } else {
        let earlier = positions(states.drop_last(), state);
        if states.last() == state {
            earlier.push((states.len() - 1) as usize)
        } else {
            earlier
        }
    }
}

/// The columns for these states, without those that have no task.
pub open spec fn columns_in(order: Seq<TaskState>, states: Seq<TaskState>) -> Seq<ColumnView>
    decreases order.len(),
{
    if order.len() == 0 {
        Seq::empty()
    } else {
        let earlier = columns_in(order.drop_last(), states);
        let tasks = positions(states, order.last());
        if tasks.len() == 0 {
            earlier
        } else {
            earlier.push(ColumnView { state: order.last(), tasks })
        }
    }
}

/// The columns of a listing whose tasks are in these states: one for each
/// state that occurs, in the order of their names.
pub open spec fn columns_of(states: Seq<TaskState>) -> Seq<ColumnView> {
    columns_in(name_order(), states)
}

/// Finds the positions at which a task is in this state.
fn find_positions(states: &Vec<TaskState>, state: TaskState) -> (found: Vec<usize>)
    ensures
        found@ == positions(states@, state),
{
    let mut found: Vec<usize> = Vec::new();
    let mut i: usize = 0;
    while i < states.len()
        invariant
            i <= states@.len(),
            found@ == positions(states@.take(i as int), state),
        decreases states@.len() - i,
    {
        assert(states@.take(i + 1).drop_last() =~= states@.take(i as int));
        if states[i] == state {
            found.push(i);
        }
        i += 1;
    }
    assert(states@.take(i as int) =~= states@);
    found
}

/// Groups a listing into columns, given the state of each of its tasks.
pub fn group_by_state(states: &Vec<TaskState>) -> (columns: Vec<Column>)
    ensures
        columns@.map_values(|column: Column| column@) == columns_of(states@),
{
    let order: [TaskState; 7] = [
        TaskState::Archived,
        TaskState::Backlog,
        TaskState::Blocked,
        TaskState::Done,
        TaskState::Ready,
        TaskState::Running,
        TaskState::Todo,
    ];
    assert(order@ =~= name_order());
    let ghost views = |column: Column| column@;
    let mut columns: Vec<Column> = Vec::new();
    let mut i: usize = 0;
    assert(columns@.map_values(views) =~= columns_in(name_order().take(0), states@));
    while i < 7
        invariant
            i <= 7,
            order@ == name_order(),
            views == (|column: Column| column@),
            columns@.map_values(views) == columns_in(name_order().take(i as int), states@),
        decreases 7 - i,
    {
        assert(name_order().take(i + 1).drop_last() =~= name_order().take(i as int));
        let tasks = find_positions(states, order[i]);
        if tasks.len() > 0 {
            let ghost before = columns@;
            columns.push(Column { state: order[i], tasks });
            assert(columns@.map_values(views) =~= before.map_values(views).push(
                columns@.last()@,
            ));
        }
        i += 1;
    }
    assert(name_order().take(7) =~= name_order());
    columns
}

/// A column lists exactly the tasks in its state, each once, in the order of
/// the listing.
pub proof fn positions_are_exact(states: Seq<TaskState>, state: TaskState)
    requires
        states.len() <= usize::MAX,
    ensures
        forall|at: usize| #[trigger]
            positions(states, state).contains(at) <==> at < states.len() && states[at as int]
                == state,
        forall|i: int, j: int|
            0 <= i < j < positions(states, state).len() ==> #[trigger] positions(states, state)[i]
                < #[trigger] positions(states, state)[j],
    decreases states.len(),
{
    if states.len() > 0 {
        let earlier = states.drop_last();
        positions_are_exact(earlier, state);
        let found = positions(states, state);
        let before = positions(earlier, state);
        assert forall|at: usize| #[trigger] found.contains(at) <==> at < states.len()
            && states[at as int] == state by {
            if before.contains(at) {
                let k = choose|k: int| 0 <= k < before.len() && before[k] == at;
                assert(found[k] == at);
            }
            if states.last() == state && at == states.len() - 1 {
                assert(found[before.len() as int] == at);
            }
            if found.contains(at) && !(states.last() == state && at == states.len() - 1) {
                let k = choose|k: int| 0 <= k < found.len() && found[k] == at;
                assert(k < before.len());
                assert(before[k] == at);
                assert(before.contains(at));
            }
            if at < earlier.len() {
                assert(earlier[at as int] == states[at as int]);
            }
        }
        assert forall|i: int, j: int| 0 <= i < j < found.len() implies #[trigger] found[i]
            < #[trigger] found[j] by {
            assert(before.contains(before[i]));
        }
    }
}

/// Whether `left` comes before `right` in dictionary order.
pub open spec fn text_less(left: Seq<char>, right: Seq<char>) -> bool
    decreases left.len(),
{
    if right.len() == 0 {
        false
    } else if left.len() == 0 {
        true
    } else {
        (left[0] as int) < right[0] as int || left[0] == right[0] && text_less(
            left.drop_first(),
            right.drop_first(),
        )
    }
}

proof fn never_less_than_itself(text: Seq<char>)
    ensures
        !text_less(text, text),
    decreases text.len(),
{
    if text.len() > 0 {
        never_less_than_itself(text.drop_first());
    }
}

proof fn name_order_is_sorted(i: int, j: int)
    requires
        0 <= i < j < name_order().len(),
    ensures
        text_less(name_order()[i].spec_name(), name_order()[j].spec_name()),
{
    reveal_names();
    reveal_with_fuel(text_less, 2);
    assert("Backlog"@.drop_first()[0] == 'a' && "Blocked"@.drop_first()[0] == 'l');
    assert("Ready"@.drop_first()[0] == 'e' && "Running"@.drop_first()[0] == 'u');
    assert("Backlog"@[0] == 'B' && "Blocked"@[0] == 'B');
    assert("Ready"@[0] == 'R' && "Running"@[0] == 'R');
    assert("Todo"@[0] == 'T' && "Done"@[0] == 'D' && "Archived"@[0] == 'A');
}

proof fn columns_follow(order: Seq<TaskState>, states: Seq<TaskState>)
    requires
        forall|i: int, j: int|
            0 <= i < j < order.len() ==> text_less(
                (#[trigger] order[i]).spec_name(),
                (#[trigger] order[j]).spec_name(),
            ),
    ensures
        forall|k: int|
            0 <= k < columns_in(order, states).len() ==> {
                let column = #[trigger] columns_in(order, states)[k];
                &&& order.contains(column.state)
                &&& column.tasks == positions(states, column.state)
                &&& column.tasks.len() > 0
            },
        forall|i: int|
            0 <= i < order.len() && positions(states, #[trigger] order[i]).len() > 0 ==> exists|
                k: int,
            |
                0 <= k < columns_in(order, states).len() && (#[trigger] columns_in(order, states)[k]).state
                    == order[i],
        forall|k: int, l: int|
            0 <= k < l < columns_in(order, states).len() ==> text_less(
                (#[trigger] columns_in(order, states)[k]).state.spec_name(),
                (#[trigger] columns_in(order, states)[l]).state.spec_name(),
            ),
    decreases order.len(),
{
    if order.len() > 0 {
        let shorter = order.drop_last();
        assert forall|i: int, j: int| 0 <= i < j < shorter.len() implies text_less(
            (#[trigger] shorter[i]).spec_name(),
            (#[trigger] shorter[j]).spec_name(),
        ) by {
            assert(shorter[i] == order[i] && shorter[j] == order[j]);
        }
        columns_follow(shorter, states);
        let earlier = columns_in(shorter, states);
        let all = columns_in(order, states);
        assert forall|k: int| 0 <= k < all.len() implies {
            let column = #[trigger] all[k];
            &&& order.contains(column.state)
            &&& column.tasks == positions(states, column.state)
            &&& column.tasks.len() > 0
        } by {
            if k < earlier.len() {
                assert(all[k] == earlier[k]);
                let at = choose|at: int| 0 <= at < shorter.len() && shorter[at] == all[k].state;
                assert(order[at] == all[k].state);
            } else {
                assert(order[order.len() - 1] == all[k].state);
            }
        }
        assert forall|i: int|
            0 <= i < order.len() && positions(states, #[trigger] order[i]).len() > 0 implies exists|
            k: int,
        |
            0 <= k < all.len() && (#[trigger] all[k]).state == order[i] by {
            if i < shorter.len() {
                assert(shorter[i] == order[i]);
                let k = choose|k: int|
                    0 <= k < earlier.len() && (#[trigger] earlier[k]).state == order[i];
                assert(all[k].state == order[i]);
            } else {
                assert(all[all.len() - 1].state == order[i]);
            }
        }
        assert forall|k: int, l: int| 0 <= k < l < all.len() implies text_less(
            (#[trigger] all[k]).state.spec_name(),
            (#[trigger] all[l]).state.spec_name(),
        ) by {
            assert(all[k] == earlier[k]);
            if l < earlier.len() {
                assert(all[l] == earlier[l]);
            } else {
                assert(shorter.contains(earlier[k].state));
                let at = choose|at: int| 0 <= at < shorter.len() && shorter[at] == all[k].state;
                assert(order[at] == all[k].state);
                assert(order[order.len() - 1] == all[l].state);
            }
        }
    }
}

/// The board is a partition of the listing: every task is in the column of its
/// state and in no other, no column is empty, and the columns stand in the
/// dictionary order of their names.
pub proof fn columns_partition_the_listing(states: Seq<TaskState>)
    requires
        states.len() <= usize::MAX,
    ensures
        forall|at: usize, k: int|
            at < states.len() && 0 <= k < columns_of(states).len() ==> (
            #[trigger] columns_of(states)[k].tasks.contains(at) <==> columns_of(states)[k].state
                == states[at as int]),
        forall|at: usize|
            at < states.len() ==> exists|k: int|
                0 <= k < columns_of(states).len() && (#[trigger] columns_of(states)[k]).state
                    == #[trigger] states[at as int],
        forall|k: int|
            0 <= k < columns_of(states).len() ==> (#[trigger] columns_of(states)[k]).tasks.len() > 0,
        forall|k: int, l: int|
            0 <= k < l < columns_of(states).len() ==> text_less(
                (#[trigger] columns_of(states)[k]).state.spec_name(),
                (#[trigger] columns_of(states)[l]).state.spec_name(),
            ),
        forall|k: int, at: usize|
            0 <= k < columns_of(states).len()
                && #[trigger] columns_of(states)[k].tasks.contains(at) ==> at < states.len(),
        forall|k: int, i: int, j: int|
            0 <= k < columns_of(states).len() && 0 <= i < j < columns_of(states)[k].tasks.len()
                ==> #[trigger] columns_of(states)[k].tasks[i]
                < #[trigger] columns_of(states)[k].tasks[j],
        forall|k: int, l: int|
            0 <= k < l < columns_of(states).len() ==> (#[trigger] columns_of(states)[k]).state != (
            #[trigger] columns_of(states)[l]).state,
{
    let order = name_order();
    assert forall|i: int, j: int| 0 <= i < j < order.len() implies text_less(
        (#[trigger] order[i]).spec_name(),
        (#[trigger] order[j]).spec_name(),
    ) by {
        name_order_is_sorted(i, j);
    }
    columns_follow(order, states);
    assert forall|at: usize, k: int|
        at < states.len() && 0 <= k < columns_of(states).len() implies (
    #[trigger] columns_of(states)[k].tasks.contains(at) <==> columns_of(states)[k].state
        == states[at as int]) by {
        positions_are_exact(states, columns_of(states)[k].state);
    }
    assert forall|k: int, at: usize|
        0 <= k < columns_of(states).len() && #[trigger] columns_of(states)[k].tasks.contains(
            at,
        ) implies at < states.len() by {
        positions_are_exact(states, columns_of(states)[k].state);
    }
    assert forall|k: int, i: int, j: int|
        0 <= k < columns_of(states).len() && 0 <= i < j < columns_of(
            states,
        )[k].tasks.len() implies #[trigger] columns_of(states)[k].tasks[i]
        < #[trigger] columns_of(states)[k].tasks[j] by {
        positions_are_exact(states, columns_of(states)[k].state);
    }
    assert forall|k: int, l: int| 0 <= k < l < columns_of(states).len() implies (
    #[trigger] columns_of(states)[k]).state != (#[trigger] columns_of(states)[l]).state by {
        never_less_than_itself(columns_of(states)[k].state.spec_name());
    }
    assert forall|at: usize| at < states.len() implies exists|k: int|
        0 <= k < columns_of(states).len() && (#[trigger] columns_of(states)[k]).state
            == #[trigger] states[at as int] by {
        let state = states[at as int];
        positions_are_exact(states, state);
        assert(positions(states, state).contains(at));
        let i = at_name(state);
        assert(order[i] == state);
    }
}

/// Where a state stands in the order of names.
spec fn at_name(state: TaskState) -> int {
    match state {
        TaskState::Archived => 0,
        TaskState::Backlog => 1,
        TaskState::Blocked => 2,
        TaskState::Done => 3,
        TaskState::Ready => 4,
        TaskState::Running => 5,
        TaskState::Todo => 6,
    }
}

} // verus!
