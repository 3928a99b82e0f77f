//! A request on its way: from the route table, through its row's requirement,
//! to its row's operation.
//!
//! The HTTP router tells which declared path a request matched, if any.
//! [`dispatch`] picks the row; an [`Exchange`] takes the request through the
//! authentication that the row declares; and the [`Pass`] that it hands out
//! opens the operation of that row and no other. An exchange is the only source
//! of passes; [`begin`], which opens any operation for any identity, is for
//! callers that have one by other means.

use vstd::prelude::*;
use vstd::string::*;

use crate::auth::{AuthContext, AuthContextView, RequestHead, RequestHeadView};
use crate::auth_laws::{
    advance, answer, every_run_ends_with_the_verdict, is_final, last_step, opens, settled, turn_at,
    verdict, Answers,
};
use crate::enforcement::{
    enforce, expects, next, opening, Action, ActionView, Enforcement, EnforcementView, Event,
    Turn,
};
use crate::operations::{begin, beginning, Call, Move, Progress, Step};
use crate::reply::{err, error_answer, Answer, AnswerView, BodyView, RejectionView, Status};
use crate::routes::{distinct_rows, table_view, Endpoint, RouteSpec, RouteView};
use crate::text::same_text;

verus! {

// ---------------------------------------------------------------------------
// Dispatch
// ---------------------------------------------------------------------------

/// The row that a request is for, if there is one.
#[derive(Debug)]
pub enum Dispatch {
    Found { route: RouteSpec },
    /// The path is there, and these are its methods.
    MethodNotAllowed { allowed: Vec<&'static str> },
    NotFound,
}

/// A dispatch as contracts see it.
pub enum DispatchView {
    Found { route: RouteView },
    MethodNotAllowed { allowed: Seq<Seq<char>> },
    NotFound,
}

/// The characters of each method.
pub open spec fn methods_view(methods: Seq<&'static str>) -> Seq<Seq<char>> {
    methods.map_values(|method: &'static str| method@)
}

impl View for Dispatch {
    type V = DispatchView;

    open spec fn view(&self) -> DispatchView {
        match *self {
            Dispatch::Found { route } => DispatchView::Found { route: route@ },
            Dispatch::MethodNotAllowed { allowed } => DispatchView::MethodNotAllowed {
                allowed: methods_view(allowed@),
            },
            Dispatch::NotFound => DispatchView::NotFound,
        }
    }
}

/// The position of the first row with this method and path; the length if there
/// is none.
pub open spec fn first_row(table: Seq<RouteView>, method: Seq<char>, path: Seq<char>) -> nat
    decreases table.len(),
{
    if table.len() == 0 || table[0].method == method && table[0].path == path {
        0
    } else {
        first_row(table.drop_first(), method, path) + 1
    }
}

/// The methods that a path answers: those of its rows, and `HEAD` with `GET`.
pub open spec fn methods_of(table: Seq<RouteView>, path: Seq<char>) -> Seq<Seq<char>>
    decreases table.len(),
{
    if table.len() == 0 {
        Seq::empty()
    } else {
        let earlier = methods_of(table.drop_last(), path);
        if table.last().path != path {
            earlier
        } else if table.last().method == "GET"@ {
            earlier.push("GET"@).push("HEAD"@)
        } else {
            earlier.push(table.last().method)
        }
    }
}

/// Where a request goes, given the declared path that it matched: to the row of
/// its method on that path, `HEAD` to that of `GET` unless it has its own.
pub open spec fn dispatched(
    table: Seq<RouteView>,
    method: Seq<char>,
    matched: Option<Seq<char>>,
) -> DispatchView {
    match matched {
        None => DispatchView::NotFound,
        Some(path) => {
            let own = first_row(table, method, path);
            let get = first_row(table, "GET"@, path);
            if own < table.len() {
                DispatchView::Found { route: table[own as int] }
            } else if method == "HEAD"@ && get < table.len() {
                DispatchView::Found { route: table[get as int] }
            } else if methods_of(table, path).len() > 0 {
                DispatchView::MethodNotAllowed { allowed: methods_of(table, path) }
            } else {
                DispatchView::NotFound
            }
        },
    }
}

proof fn first_row_is(table: Seq<RouteView>, method: Seq<char>, path: Seq<char>, at: nat)
    requires
        at <= table.len(),
        forall|i: int|
            0 <= i < at ==> (#[trigger] table[i]).method != method || table[i].path != path,
        at < table.len() ==> table[at as int].method == method && table[at as int].path == path,
    ensures
        first_row(table, method, path) == at,
    decreases table.len(),
{
    if at > 0 {
        let rest = table.drop_first();
        assert forall|i: int| 0 <= i < at - 1 implies (#[trigger] rest[i]).method != method
            || rest[i].path != path by {
            assert(rest[i] == table[i + 1]);
        }
        assert(table[0].method != method || table[0].path != path);
        first_row_is(rest, method, path, (at - 1) as nat);
    }
}

fn find_row(table: &[RouteSpec], method: &str, path: &str) -> (at: usize)
    ensures
        at == first_row(table_view(table@), method@, path@),
        at <= table@.len(),
{
    let ghost rows = table_view(table@);
    let mut i: usize = 0;
    while i < table.len()
        invariant
            i <= table@.len(),
            rows == table_view(table@),
            forall|j: int|
                0 <= j < i ==> (#[trigger] rows[j]).method != method@ || rows[j].path != path@,
        decreases table@.len() - i,
    {
        assert(rows[i as int] == table@[i as int]@);
        if same_text(table[i].method, method) && same_text(table[i].path, path) {
            proof {
                first_row_is(rows, method@, path@, i as nat);
            }
            return i;
        }
        i += 1;
    }
    proof {
        first_row_is(rows, method@, path@, i as nat);
    }
    i
}

fn find_methods(table: &[RouteSpec], path: &str) -> (methods: Vec<&'static str>)
    ensures
        methods_view(methods@) == methods_of(table_view(table@), path@),
{
    let ghost rows = table_view(table@);
    let mut methods: Vec<&'static str> = Vec::new();
    let mut i: usize = 0;
    assert(methods_view(methods@) =~= methods_of(rows.take(0), path@));
    while i < table.len()
        invariant
            i <= table@.len(),
            rows == table_view(table@),
            methods_view(methods@) == methods_of(rows.take(i as int), path@),
        decreases table@.len() - i,
    {
        let ghost before = methods_view(methods@);
        assert(rows.take(i + 1).drop_last() =~= rows.take(i as int));
        assert(rows.take(i + 1).last() == table@[i as int]@);
        let route = table[i];
        if same_text(route.path, path) {
            if same_text(route.method, "GET") {
                methods.push("GET");
                methods.push("HEAD");
                assert(methods_view(methods@) =~= before.push("GET"@).push("HEAD"@));
            } else {
                methods.push(route.method);
                assert(methods_view(methods@) =~= before.push(route.method@));
            }
        }
        i += 1;
    }
    assert(rows.take(i as int) =~= rows);
    methods
}

/// Finds the row that a request is for, given the declared path that it
/// matched.
pub fn dispatch(table: &[RouteSpec], method: &str, matched: Option<&str>) -> (found: Dispatch)
    ensures
        found@ == dispatched(
            table_view(table@),
            method@,
            match matched {
                Some(path) => Some(path@),
                None => None,
            },
        ),
{
    let path = match matched {
        Some(path) => path,
        None => {
            return Dispatch::NotFound;
        },
    };
    let own = find_row(table, method, path);
    if own < table.len() {
        return Dispatch::Found { route: table[own] };
    }
    if same_text(method, "HEAD") {
        let get = find_row(table, "GET", path);
        if get < table.len() {
            return Dispatch::Found { route: table[get] };
        }
    }
    let allowed = find_methods(table, path);
    if allowed.len() > 0 {
        Dispatch::MethodNotAllowed { allowed }
    } else {
        Dispatch::NotFound
    }
}

/// The answer to a request that no row is for.
pub open spec fn unrouted(dispatch: DispatchView) -> AnswerView {
    match dispatch {
        DispatchView::MethodNotAllowed { .. } => error_answer(
            Status::MethodNotAllowed,
            "method not allowed"@,
        ),
        _ => error_answer(Status::NotFound, "not found"@),
    }
}

/// Answers a request that no row is for.
pub fn refuse_unrouted(dispatch: &Dispatch) -> (answer: Answer)
    ensures
        answer@ == unrouted(dispatch@),
{
    match dispatch {
        Dispatch::MethodNotAllowed { .. } => err(Status::MethodNotAllowed, "method not allowed"),
        _ => err(Status::NotFound, "not found"),
    }
}

// ---------------------------------------------------------------------------
// Exchange
// ---------------------------------------------------------------------------

/// A request under the authentication of its row.
pub struct Exchange {
    route: RouteSpec,
    machine: Enforcement,
}

/// An exchange as contracts see it.
pub struct ExchangeView {
    pub route: RouteView,
    pub state: EnforcementView,
}

impl View for Exchange {
    type V = ExchangeView;

    closed spec fn view(&self) -> ExchangeView {
        ExchangeView { route: self.route@, state: self.machine@ }
    }
}

/// Leave to call one operation, as one identity.
pub struct Pass {
    handler: Endpoint,
    context: AuthContext,
}

/// A pass as contracts see it.
pub struct PassView {
    pub handler: Endpoint,
    pub context: AuthContextView,
}

impl View for Pass {
    type V = PassView;

    closed spec fn view(&self) -> PassView {
        PassView { handler: self.handler, context: self.context@ }
    }
}

/// Where an exchange stands.
pub enum Passage {
    /// It asks for an action.
    Asking { exchange: Exchange, action: Action },
    /// It lets the request through.
    Admitted { pass: Pass },
    /// It refuses the request.
    Refused { answer: Answer },
}

/// A passage as contracts see it.
pub enum PassageView {
    Asking { exchange: ExchangeView, action: ActionView },
    Admitted { pass: PassView },
    Refused { answer: AnswerView },
}

impl View for Passage {
    type V = PassageView;

    open spec fn view(&self) -> PassageView {
        match *self {
            Passage::Asking { exchange, action } => PassageView::Asking {
                exchange: exchange@,
                action: action@,
            },
            Passage::Admitted { pass } => PassageView::Admitted { pass: pass@ },
            Passage::Refused { answer } => PassageView::Refused { answer: answer@ },
        }
    }
}

/// What a turn of the middleware means for a request of this row.
pub open spec fn passage_of(route: RouteView, turn: Turn) -> PassageView {
    match turn.action {
        ActionView::Admit { context } => PassageView::Admitted {
            pass: PassView { handler: route.handler, context },
        },
        ActionView::Reject { rejection } => PassageView::Refused {
            answer: error_answer(rejection.status, rejection.message),
        },
        action => PassageView::Asking {
            exchange: ExchangeView { route, state: turn.state },
            action,
        },
    }
}

fn to_passage(route: RouteSpec, turn: (Enforcement, Action)) -> (passage: Passage)
    ensures
        passage@ == passage_of(route@, Turn { state: turn.0@, action: turn.1@ }),
{
    let (machine, action) = turn;
    match action {
        Action::Admit { context } => Passage::Admitted {
            pass: Pass { handler: route.handler, context },
        },
        Action::Reject { rejection } => Passage::Refused { answer: rejection.answer() },
        action => Passage::Asking { exchange: Exchange { route, machine }, action },
    }
}

/// Opens the exchange of a request of this row, under the row's requirement.
pub fn open(route: RouteSpec, head: RequestHead) -> (passage: Passage)
    ensures
        passage@ == passage_of(route@, opening(route.auth, head@)),
{
    to_passage(route, enforce(route.auth, head))
}

impl Exchange {
    /// Takes the answer to the last action further.
    pub fn step(self, event: Event) -> (passage: Passage)
        requires
            expects(self@.state.stage, event@),
        ensures
            passage@ == passage_of(self@.route, next(self@.state, event@)),
    {
        to_passage(self.route, self.machine.step(event))
    }
}

/// The operation that a call is one of.
pub open spec fn operation_of(call: Call) -> Endpoint {
    match call {
        Call::Enroll { .. } => Endpoint::Enroll,
        Call::Login { .. } => Endpoint::Login,
        Call::Logout => Endpoint::Logout,
        Call::Board { .. } => Endpoint::Board,
        Call::GetTask { .. } => Endpoint::GetTask,
        Call::CreateTask { .. } => Endpoint::CreateTask,
        Call::TransitionTask { .. } => Endpoint::TransitionTask,
        Call::ClaimTask { .. } => Endpoint::ClaimTask,
        Call::BlockTask { .. } => Endpoint::BlockTask,
        Call::GetConfig => Endpoint::GetConfig,
        Call::PutConfig { .. } => Endpoint::PutConfig,
        Call::Plugins => Endpoint::Plugins,
        Call::Logs => Endpoint::Logs,
        Call::Audit => Endpoint::Audit,
    }
}

/// Tells the operation that a call is one of.
pub fn operation(call: &Call) -> (endpoint: Endpoint)
    ensures
        endpoint == operation_of(*call),
{
    match call {
        Call::Enroll { .. } => Endpoint::Enroll,
        Call::Login { .. } => Endpoint::Login,
        Call::Logout => Endpoint::Logout,
        Call::Board { .. } => Endpoint::Board,
        Call::GetTask { .. } => Endpoint::GetTask,
        Call::CreateTask { .. } => Endpoint::CreateTask,
        Call::TransitionTask { .. } => Endpoint::TransitionTask,
        Call::ClaimTask { .. } => Endpoint::ClaimTask,
        Call::BlockTask { .. } => Endpoint::BlockTask,
        Call::GetConfig => Endpoint::GetConfig,
        Call::PutConfig { .. } => Endpoint::PutConfig,
        Call::Plugins => Endpoint::Plugins,
        Call::Logs => Endpoint::Logs,
        Call::Audit => Endpoint::Audit,
    }
}

impl Pass {
    /// The operation that the pass is for.
    pub fn handler(&self) -> (handler: Endpoint)
        ensures
            handler == self@.handler,
    {
        self.handler
    }

    /// Opens the operation that the pass is for.
    pub fn enter(self, call: Call) -> (first: (Progress, Step))
        requires
            operation_of(call) == self@.handler,
        ensures
            (Move { progress: first.0@, step: first.1@ }) == beginning(call, self@.context),
    {
        begin(call, self.context)
    }
}

// ---------------------------------------------------------------------------
// Laws
// ---------------------------------------------------------------------------

/// Where a request ends up.
pub enum Reached {
    /// In this operation, as this identity.
    Operation { handler: Endpoint, context: AuthContextView },
    /// In this answer.
    Answered { answer: AnswerView },
}

/// Where a request that matched this path ends up, given the outside's answers.
pub open spec fn reached(
    table: Seq<RouteView>,
    method: Seq<char>,
    matched: Option<Seq<char>>,
    head: RequestHeadView,
    answers: Answers,
) -> Reached {
    match dispatched(table, method, matched) {
        DispatchView::Found { route } => match verdict(route.auth, head, answers) {
            Ok(context) => Reached::Operation { handler: route.handler, context },
            Err(rejection) => Reached::Answered {
                answer: error_answer(rejection.status, rejection.message),
            },
        },
        other => Reached::Answered { answer: unrouted(other) },
    }
}

/// An exchange runs as the middleware does: it opens with the first turn of its
/// row's requirement, and each answer takes it one turn further.
pub proof fn exchanges_follow_the_middleware(
    route: RouteView,
    head: RequestHeadView,
    answers: Answers,
    steps: nat,
)
    ensures
        passage_of(route, opening(route.auth, head)) == passage_of(
            route,
            turn_at(route.auth, head, answers, 0),
        ),
        passage_of(
            route,
            turn_at(route.auth, head, answers, steps),
        ) matches PassageView::Asking { exchange, action } ==> passage_of(
            exchange.route,
            next(exchange.state, answer(action, answers)),
        ) == passage_of(route, turn_at(route.auth, head, answers, steps + 1)),
{
    opens(route.auth, head, answers);
    let turn = turn_at(route.auth, head, answers, steps);
    if !is_final(turn.action) {
        advance(route.auth, head, answers, steps, turn);
    }
}

/// An exchange lets a request through exactly as the requirement of its own row
/// decides: a pass that comes out of it, after however many answers, is for the
/// row's operation, and for the identity that the row's requirement admits; a
/// refusal is the one that the row's requirement gives.
pub proof fn passes_meet_their_rows_requirement(
    route: RouteView,
    head: RequestHeadView,
    answers: Answers,
    steps: nat,
)
    ensures
        match passage_of(route, turn_at(route.auth, head, answers, steps)) {
            PassageView::Admitted { pass } => pass.handler == route.handler && verdict(
                route.auth,
                head,
                answers,
            ) == Ok::<AuthContextView, RejectionView>(pass.context),
            PassageView::Refused { answer } => verdict(
                route.auth,
                head,
                answers,
            ) matches Err(rejection) && answer == error_answer(
                rejection.status,
                rejection.message,
            ),
            PassageView::Asking { .. } => steps < last_step(),
        },
{
    let far = steps + last_step();
    every_run_ends_with_the_verdict(route.auth, head, answers, far);
    if is_final(turn_at(route.auth, head, answers, steps).action) {
        settled(route.auth, head, answers, steps, far);
    }
    if steps >= last_step() {
        every_run_ends_with_the_verdict(route.auth, head, answers, steps);
    }
}

/// Each row keeps its own requirement: where no two rows share both method and
/// path, as in every table that is mounted, a request of a row's method that
/// matched its path is that row's, and reaches its operation exactly if that
/// row's requirement lets it through.
pub proof fn rows_keep_their_own_requirement(
    table: Seq<RouteView>,
    at: int,
    head: RequestHeadView,
    answers: Answers,
)
    requires
        distinct_rows(table),
        0 <= at < table.len(),
    ensures
        dispatched(table, table[at].method, Some(table[at].path)) == (DispatchView::Found {
            route: table[at],
        }),
        reached(table, table[at].method, Some(table[at].path), head, answers) == (match verdict(
            table[at].auth,
            head,
            answers,
        ) {
            Ok(context) => Reached::Operation { handler: table[at].handler, context },
            Err(rejection) => Reached::Answered {
                answer: error_answer(rejection.status, rejection.message),
            },
        }),
{
    let method = table[at].method;
    let path = table[at].path;
    assert forall|i: int| 0 <= i < at implies (#[trigger] table[i]).method != method
        || table[i].path != path by {
        assert(table[i].method != table[at].method || table[i].path != table[at].path);
    }
    first_row_is(table, method, path, at as nat);
}

/// Whatever reaches an operation has passed the requirement of a row that
/// declares that operation, on the path that the request matched.
pub proof fn operations_are_reached_through_their_row(
    table: Seq<RouteView>,
    method: Seq<char>,
    matched: Option<Seq<char>>,
    head: RequestHeadView,
    answers: Answers,
)
    ensures
        reached(table, method, matched, head, answers) matches Reached::Operation {
            handler,
            context,
        } ==> exists|i: int|
            0 <= i < table.len() && (#[trigger] table[i]).handler == handler && Some(table[i].path)
                == matched && (table[i].method == method || method == "HEAD"@ && table[i].method
                == "GET"@) && verdict(table[i].auth, head, answers) == Ok::<
                AuthContextView,
                RejectionView,
            >(context),
{
    match matched {
        Some(path) => {
            first_row_found(table, method, path);
            first_row_found(table, "GET"@, path);
        },
        None => {},
    }
}

proof fn first_row_found(table: Seq<RouteView>, method: Seq<char>, path: Seq<char>)
    ensures
        first_row(table, method, path) <= table.len(),
        first_row(table, method, path) < table.len() ==> table[first_row(
            table,
            method,
            path,
        ) as int].method == method && table[first_row(table, method, path) as int].path == path,
        first_row(table, method, path) == table.len() ==> forall|i: int|
            0 <= i < table.len() ==> (#[trigger] table[i]).method != method || table[i].path
                != path,
    decreases table.len(),
{
    if table.len() > 0 && !(table[0].method == method && table[0].path == path) {
        let rest = table.drop_first();
        first_row_found(rest, method, path);
        assert forall|i: int|
            first_row(table, method, path) == table.len() && 0 <= i < table.len() implies (
        #[trigger] table[i]).method != method || table[i].path != path by {
            if i > 0 {
                assert(table[i] == rest[i - 1]);
            }
        }
    }
}

proof fn no_methods_without_a_row(table: Seq<RouteView>, path: Seq<char>)
    requires
        forall|i: int| 0 <= i < table.len() ==> (#[trigger] table[i]).path != path,
    ensures
        methods_of(table, path).len() == 0,
    decreases table.len(),
{
    if table.len() > 0 {
        let earlier = table.drop_last();
        assert forall|i: int| 0 <= i < earlier.len() implies (#[trigger] earlier[i]).path
            != path by {
            assert(earlier[i] == table[i]);
        }
        no_methods_without_a_row(earlier, path);
        assert(table[table.len() - 1].path != path);
    }
}

/// A request that matched no row's path is answered with 404, and reaches no
/// operation.
pub proof fn unknown_paths_are_not_found(
    table: Seq<RouteView>,
    method: Seq<char>,
    matched: Option<Seq<char>>,
    head: RequestHeadView,
    answers: Answers,
)
    requires
        matched matches Some(path) ==> forall|i: int|
            0 <= i < table.len() ==> (#[trigger] table[i]).path != path,
    ensures
        reached(table, method, matched, head, answers) == (Reached::Answered {
            answer: error_answer(Status::NotFound, "not found"@),
        }),
{
    match matched {
        Some(path) => {
            first_row_found(table, method, path);
            first_row_found(table, "GET"@, path);
            no_methods_without_a_row(table, path);
        },
        None => {},
    }
}

/// Whether a path answers a method: one of its rows has it, or the method is
/// `HEAD` and one of its rows has `GET`.
pub open spec fn answers(table: Seq<RouteView>, method: Seq<char>, path: Seq<char>) -> bool {
    exists|i: int|
        0 <= i < table.len() && (#[trigger] table[i]).path == path && (table[i].method == method
            || method == "HEAD"@ && table[i].method == "GET"@)
}

/// A path that is there but does not answer the method is told apart from one
/// that is not: 405, with exactly the methods that the path answers.
pub proof fn unanswered_methods_are_told(
    table: Seq<RouteView>,
    method: Seq<char>,
    path: Seq<char>,
    other: Seq<char>,
    at: int,
)
    requires
        0 <= at < table.len(),
        table[at].path == path,
        !answers(table, method, path),
    ensures
        dispatched(table, method, Some(path)) matches DispatchView::MethodNotAllowed { allowed }
            && (allowed.contains(other) <==> answers(table, other, path)),
        unrouted(dispatched(table, method, Some(path))) == (AnswerView {
            status: Status::MethodNotAllowed,
            body: BodyView::Error { message: "method not allowed"@ },
        }),
{
    first_row_found(table, method, path);
    first_row_found(table, "GET"@, path);
    methods_are_those_answered(table, path, other);
    methods_are_those_answered(table, path, table[at].method);
    assert(answers(table, table[at].method, path));
}

proof fn methods_are_those_answered(table: Seq<RouteView>, path: Seq<char>, method: Seq<char>)
    ensures
        methods_of(table, path).contains(method) <==> answers(table, method, path),
    decreases table.len(),
{
    if table.len() > 0 {
        let earlier = table.drop_last();
        methods_are_those_answered(earlier, path, method);
        let before = methods_of(earlier, path);
        let all = methods_of(table, path);
        if answers(earlier, method, path) {
            let i = choose|i: int|
                0 <= i < earlier.len() && (#[trigger] earlier[i]).path == path && (earlier[i].method
                    == method || method == "HEAD"@ && earlier[i].method == "GET"@);
            assert(table[i] == earlier[i]);
            let k = choose|k: int| 0 <= k < before.len() && before[k] == method;
            assert(all[k] == method);
        }
        if answers(table, method, path) && !answers(earlier, method, path) {
            let i = choose|i: int|
                0 <= i < table.len() && (#[trigger] table[i]).path == path && (table[i].method
                    == method || method == "HEAD"@ && table[i].method == "GET"@);
            if i < earlier.len() {
                assert(earlier[i] == table[i]);
            }
            assert(table.last().path == path);
            if table.last().method == "GET"@ {
                assert(all[before.len() as int] == "GET"@);
                assert(all[before.len() as int + 1] == "HEAD"@);
            } else {
                assert(all[before.len() as int] == table.last().method);
            }
        }
        if all.contains(method) {
            let k = choose|k: int| 0 <= k < all.len() && all[k] == method;
            if k < before.len() {
                assert(before[k] == method);
                assert(before.contains(method));
                let i = choose|i: int|
                    0 <= i < earlier.len() && (#[trigger] earlier[i]).path == path && (
                    earlier[i].method == method || method == "HEAD"@ && earlier[i].method
                        == "GET"@);
                assert(table[i] == earlier[i]);
            } else {
                assert(table[table.len() - 1].path == path);
            }
        }
    }
}

/// A request whose method its path answers is for the row of that method, and
/// `HEAD` for that of `GET` where it has none of its own.
pub proof fn answered_methods_find_their_row(
    table: Seq<RouteView>,
    method: Seq<char>,
    path: Seq<char>,
)
    requires
        answers(table, method, path),
    ensures
        dispatched(table, method, Some(path)) matches DispatchView::Found { route } && route.path
            == path && table.contains(route) && (route.method == method || method == "HEAD"@
            && route.method == "GET"@ && forall|i: int|
            0 <= i < table.len() ==> (#[trigger] table[i]).path != path || table[i].method
                != "HEAD"@),
{
    first_row_found(table, method, path);
    first_row_found(table, "GET"@, path);
}

/// What the middleware decides is what the exchange hands on: a pass to the
/// row's own operation for exactly the identity that it admitted, and a refusal
/// with its status and its message; and whatever else it asks for is asked for
/// as it is.
pub proof fn exchanges_hand_on_what_was_decided(route: RouteView, turn: Turn)
    ensures
        match turn.action {
            ActionView::Admit { context } => passage_of(route, turn) == (PassageView::Admitted {
                pass: PassView { handler: route.handler, context },
            }),
            ActionView::Reject { rejection } => passage_of(route, turn) == (PassageView::Refused {
                answer: AnswerView {
                    status: rejection.status,
                    body: BodyView::Error { message: rejection.message },
                },
            }),
            _ => passage_of(route, turn) matches PassageView::Asking { exchange, action } && action
                == turn.action && exchange.route == route && exchange.state == turn.state,
        },
{
}

/// Each call is one of the operation that is named after it.
pub proof fn calls_are_of_their_operation(call: Call)
    ensures
        operation_of(call) is Enroll <==> call is Enroll,
        operation_of(call) is Login <==> call is Login,
        operation_of(call) is Logout <==> call is Logout,
        operation_of(call) is Board <==> call is Board,
        operation_of(call) is GetTask <==> call is GetTask,
        operation_of(call) is CreateTask <==> call is CreateTask,
        operation_of(call) is TransitionTask <==> call is TransitionTask,
        operation_of(call) is ClaimTask <==> call is ClaimTask,
        operation_of(call) is BlockTask <==> call is BlockTask,
        operation_of(call) is GetConfig <==> call is GetConfig,
        operation_of(call) is PutConfig <==> call is PutConfig,
        operation_of(call) is Plugins <==> call is Plugins,
        operation_of(call) is Logs <==> call is Logs,
        operation_of(call) is Audit <==> call is Audit,
{
}

} // verus!
