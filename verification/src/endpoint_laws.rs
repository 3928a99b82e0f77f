//! What each endpoint does, from its call to its answer.
//!
//! Each law follows a call through its steps: what a component is asked for is
//! what the call and the identity hold, unchanged, and what is answered is what
//! the components replied.

use vstd::prelude::*;

use crate::auth::AuthContextView;
use crate::config::{ConfigDocument, PluginManifest};
use crate::handlers::{
    Authentication, BlockBody, BoardParams, ConfigRead, CreateTaskBody, EnrollBody, EnrollmentView,
    LogRead, LoginBody, TransitionBody,
};
use crate::kanban::{
    blank_queries_select_everything, columns_of, columns_partition_the_listing, selected, written,
    written_query_selects, ColumnView, TaskState,
};
use crate::operation_laws::{after, in_turn, password_checks_wait_for_a_slot};
use crate::operations::{awaits, beginning, following, Call, Outcome, StepView};
use crate::outside::{base64_bytes, base64_len, base64_text, base64_url_text, uuid_bits};
use crate::reply::{AnswerView, BodyView, DecisionView, Status};
use crate::session::{hex_text, SessionPayloadView, Stamp};
use crate::state::{only_expired_are_deleted, RevocationRecord};
use crate::text::is_white_space;
use crate::users::User;

verus! {

/// Whether a call that saw these outcomes asks for this step.
pub open spec fn asks_for(
    call: Call,
    context: AuthContextView,
    outcomes: Seq<Outcome>,
    step: StepView,
) -> bool {
    in_turn(call, context, outcomes) && after(call, context, outcomes).step == step
}

/// Whether a call that saw these outcomes is answered with this.
pub open spec fn answers_with(
    call: Call,
    context: AuthContextView,
    outcomes: Seq<Outcome>,
    status: Status,
    body: BodyView,
) -> bool {
    asks_for(call, context, outcomes, StepView::Answer { answer: AnswerView { status, body } })
}

proof fn nothing_yet(call: Call, context: AuthContextView)
    ensures
        in_turn(call, context, seq![]),
        after(call, context, seq![]) == beginning(call, context),
{
}

proof fn one_more(call: Call, context: AuthContextView, outcomes: Seq<Outcome>, outcome: Outcome)
    ensures
        after(call, context, outcomes.push(outcome)) == following(
            after(call, context, outcomes).progress,
            outcome,
        ),
        in_turn(call, context, outcomes.push(outcome)) <==> in_turn(call, context, outcomes)
            && awaits(after(call, context, outcomes).progress, outcome),
{
    assert(outcomes.push(outcome).drop_last() =~= outcomes);
}

// ---------------------------------------------------------------------------
// Enrollment
// ---------------------------------------------------------------------------

/// The scheme is asked to enroll exactly what the body holds, under the bytes
/// that its key decodes to; a key that does not decode is a bad request, and
/// the scheme is not asked.
pub proof fn enrollment_asks_for_the_body(body: EnrollBody, context: AuthContextView)
    ensures
        base64_bytes(body.public_key_b64@) matches Some(public_key) ==> asks_for(
            Call::Enroll { body },
            context,
            seq![],
            StepView::Enroll {
                request: EnrollmentView {
                    api_key: body.api_key@,
                    client_name: body.client_name@,
                    public_key,
                },
            },
        ),
        base64_bytes(body.public_key_b64@) is None ==> answers_with(
            Call::Enroll { body },
            context,
            seq![],
            Status::BadRequest,
            BodyView::Error { message: "public_key_b64 is not valid base64"@ },
        ),
{
    nothing_yet(Call::Enroll { body }, context);
}

/// An enrollment is answered with the credential exactly if the scheme issued
/// one.
pub proof fn enrollment_is_answered_as_the_scheme_decides(
    body: EnrollBody,
    context: AuthContextView,
)
    requires
        base64_bytes(body.public_key_b64@) is Some,
    ensures
        answers_with(
            Call::Enroll { body },
            context,
            seq![Outcome::Accepted { accepted: true }],
            Status::Success,
            BodyView::Credential,
        ),
        answers_with(
            Call::Enroll { body },
            context,
            seq![Outcome::Accepted { accepted: false }],
            Status::Unauthorized,
            BodyView::Error { message: "enrollment rejected"@ },
        ),
{
    let call = Call::Enroll { body };
    nothing_yet(call, context);
    one_more(call, context, seq![], Outcome::Accepted { accepted: true });
    one_more(call, context, seq![], Outcome::Accepted { accepted: false });
}

// ---------------------------------------------------------------------------
// Login
// ---------------------------------------------------------------------------

/// Whatever a login saw, the directory is asked about exactly the username and
/// the password of its body; and it is asked as soon as there is a slot.
pub proof fn credentials_are_checked_as_they_came(
    body: LoginBody,
    context: AuthContextView,
    outcomes: Seq<Outcome>,
    username: Seq<char>,
    password: Seq<char>,
)
    ensures
        asks_for(
            Call::Login { body },
            context,
            outcomes,
            StepView::Authenticate { username, password },
        ) ==> username == body.username@ && password == body.password@,
        asks_for(Call::Login { body }, context, seq![], StepView::TakeSlot),
        asks_for(
            Call::Login { body },
            context,
            seq![Outcome::Done],
            StepView::Authenticate { username: body.username@, password: body.password@ },
        ),
{
    let call = Call::Login { body };
    nothing_yet(call, context);
    one_more(call, context, seq![], Outcome::Done);
    if asks_for(call, context, outcomes, StepView::Authenticate { username, password }) {
        password_checks_wait_for_a_slot(call, context, outcomes);
        assert(outcomes =~= seq![Outcome::Done]);
    }
}

/// What a login sees up to the stamp over its payload.
pub open spec fn login_outcomes(
    user: User,
    random: [u8; 16],
    now: i64,
    payload_json: Vec<u8>,
    stamp: Stamp,
) -> Seq<Outcome> {
    seq![
        Outcome::Done,
        Outcome::Authenticated { outcome: Authentication::Accepted { user } },
        Outcome::Random { bytes: random },
        Outcome::Clock { now },
        Outcome::Encoded { payload_json },
        Outcome::Stamped { stamp },
        Outcome::Done,
    ]
}

/// A login whose credentials are accepted opens a session of that user: it
/// names the user and the roles that the directory gave, under a nonce made of
/// all the random bytes, for half an hour from the time that was read. The
/// bytes that the payload encodes to are stamped, and the token is their base64
/// text, a dot and the stamp in hexadecimal. The login is recorded under the
/// user's id, and answered with that token and that expiry.
pub proof fn accepted_logins_open_a_session(
    body: LoginBody,
    context: AuthContextView,
    user: User,
    random: [u8; 16],
    now: i64,
    payload_json: Vec<u8>,
    stamp: Stamp,
    exp_unix: i64,
)
    requires
        exp_unix == now + 1800,
        base64_len(payload_json@.len()) <= isize::MAX,
    ensures
        ({
            let call = Call::Login { body };
            let outcomes = login_outcomes(user, random, now, payload_json, stamp);
            &&& asks_for(call, context, outcomes.take(2), StepView::DrawNonce)
            &&& asks_for(call, context, outcomes.take(3), StepView::ReadClock)
            &&& asks_for(
                call,
                context,
                outcomes.take(4),
                StepView::EncodePayload {
                    payload: SessionPayloadView {
                        user_id: user.id@,
                        roles: user.roles@,
                        exp_unix,
                        nonce: base64_url_text(random@),
                    },
                },
            )
            &&& asks_for(
                call,
                context,
                outcomes.take(5),
                StepView::StampPayload { payload_json: payload_json@ },
            )
            &&& asks_for(
                call,
                context,
                outcomes.take(6),
                StepView::Record {
                    decision: DecisionView {
                        allowed: true,
                        detail: "login ok user="@ + user.id@,
                    },
                },
            )
            &&& answers_with(
                call,
                context,
                outcomes,
                Status::Success,
                BodyView::Session {
                    token: base64_text(payload_json@) + seq!['.'] + hex_text(stamp.0@),
                    exp_unix,
                },
            )
        }),
{
    let call = Call::Login { body };
    let all = login_outcomes(user, random, now, payload_json, stamp);
    nothing_yet(call, context);
    assert(all.take(0) =~= seq![]);
    assert(all.take(1) =~= all.take(0).push(all[0]));
    assert(all.take(2) =~= all.take(1).push(all[1]));
    assert(all.take(3) =~= all.take(2).push(all[2]));
    assert(all.take(4) =~= all.take(3).push(all[3]));
    assert(all.take(5) =~= all.take(4).push(all[4]));
    assert(all.take(6) =~= all.take(5).push(all[5]));
    assert(all.take(7) =~= all.take(6).push(all[6]));
    one_more(call, context, all.take(0), all[0]);
    one_more(call, context, all.take(1), all[1]);
    one_more(call, context, all.take(2), all[2]);
    one_more(call, context, all.take(3), all[3]);
    one_more(call, context, all.take(4), all[4]);
    one_more(call, context, all.take(5), all[5]);
    one_more(call, context, all.take(6), all[6]);
    assert(all.take(7) =~= all);
    assert(base64_text(payload_json@).push('.') =~= base64_text(payload_json@) + seq!['.']);
}

/// A login whose credentials are refused is recorded as failed, without a name,
/// and answered with 401; a check that did not run to its end with 500.
pub proof fn refused_logins_open_none(body: LoginBody, context: AuthContextView)
    ensures
        ({
            let call = Call::Login { body };
            let refused = Outcome::Authenticated { outcome: Authentication::Refused };
            let failed = Outcome::Authenticated { outcome: Authentication::Failed };
            &&& asks_for(
                call,
                context,
                seq![Outcome::Done, refused],
                StepView::Record {
                    decision: DecisionView { allowed: false, detail: "login failed"@ },
                },
            )
            &&& answers_with(
                call,
                context,
                seq![Outcome::Done, refused, Outcome::Done],
                Status::Unauthorized,
                BodyView::Error { message: "invalid credentials"@ },
            )
            &&& answers_with(
                call,
                context,
                seq![Outcome::Done, failed],
                Status::InternalServerError,
                BodyView::Error { message: "auth task failed"@ },
            )
        }),
{
    let call = Call::Login { body };
    let refused = Outcome::Authenticated { outcome: Authentication::Refused };
    let failed = Outcome::Authenticated { outcome: Authentication::Failed };
    nothing_yet(call, context);
    one_more(call, context, seq![], Outcome::Done);
    one_more(call, context, seq![Outcome::Done], refused);
    one_more(call, context, seq![Outcome::Done], failed);
    one_more(call, context, seq![Outcome::Done, refused], Outcome::Done);
    assert(seq![Outcome::Done].push(refused) =~= seq![Outcome::Done, refused]);
    assert(seq![Outcome::Done].push(failed) =~= seq![Outcome::Done, failed]);
    assert(seq![Outcome::Done, refused].push(Outcome::Done) =~= seq![
        Outcome::Done,
        refused,
        Outcome::Done,
    ]);
}

// ---------------------------------------------------------------------------
// Logout
// ---------------------------------------------------------------------------

/// A logout puts the nonce of the identity's session on the denylist, until the
/// session's expiry, and deletes exactly the listed records whose expiry lies
/// before the time that was read. Once that is stored, it invalidates the stamp
/// over the bytes that the session was verified with, and is acknowledged; if it
/// is not stored, nothing is invalidated and the answer is 500.
pub proof fn logout_revokes_the_session(
    context: AuthContextView,
    session: SessionPayloadView,
    session_bytes: Seq<u8>,
    now: i64,
    records: Vec<RevocationRecord>,
    id: Seq<char>,
)
    requires
        context.session == Some(session),
        context.session_bytes == Some(session_bytes),
    ensures
        ({
            let call = Call::Logout;
            let clock = Outcome::Clock { now };
            let listed = Outcome::Revocations { records: Some(records) };
            let stored = Outcome::Accepted { accepted: true };
            let failed = Outcome::Accepted { accepted: false };
            &&& asks_for(call, context, seq![], StepView::ReadClock)
            &&& asks_for(call, context, seq![clock], StepView::ListRevocations)
            &&& in_turn(call, context, seq![clock, listed])
            &&& after(call, context, seq![clock, listed]).step matches StepView::Revoke {
                delete,
                nonce,
                exp_unix,
            } && nonce == session.nonce && exp_unix == Some(session.exp_unix) && (delete.contains(
                id,
            ) <==> exists|i: int|
                0 <= i < records@.len() && (#[trigger] records@[i]).id@ == id && (
                records@[i].exp_unix matches Some(exp) && exp < now))
            &&& asks_for(
                call,
                context,
                seq![clock, listed, stored],
                StepView::InvalidateStamp { payload_bytes: session_bytes },
            )
            &&& answers_with(
                call,
                context,
                seq![clock, listed, stored, Outcome::Done],
                Status::Success,
                BodyView::Acknowledged,
            )
            &&& answers_with(
                call,
                context,
                seq![clock, listed, failed],
                Status::InternalServerError,
                BodyView::Error { message: "revocation failed"@ },
            )
        }),
{
    let call = Call::Logout;
    let clock = Outcome::Clock { now };
    let listed = Outcome::Revocations { records: Some(records) };
    let stored = Outcome::Accepted { accepted: true };
    let failed = Outcome::Accepted { accepted: false };
    nothing_yet(call, context);
    one_more(call, context, seq![], clock);
    one_more(call, context, seq![clock], listed);
    one_more(call, context, seq![clock, listed], stored);
    one_more(call, context, seq![clock, listed], failed);
    one_more(call, context, seq![clock, listed, stored], Outcome::Done);
    assert(seq![clock].push(listed) =~= seq![clock, listed]);
    assert(seq![clock, listed].push(stored) =~= seq![clock, listed, stored]);
    assert(seq![clock, listed].push(failed) =~= seq![clock, listed, failed]);
    assert(seq![clock, listed, stored].push(Outcome::Done) =~= seq![
        clock,
        listed,
        stored,
        Outcome::Done,
    ]);
    only_expired_are_deleted(records@, now, id);
}

/// A denylist that cannot be listed does not keep a session from being logged
/// out: it is put there all the same, and nothing is deleted.
pub proof fn logout_needs_no_listing(
    context: AuthContextView,
    session: SessionPayloadView,
    session_bytes: Seq<u8>,
    now: i64,
)
    requires
        context.session == Some(session),
        context.session_bytes == Some(session_bytes),
    ensures
        asks_for(
            Call::Logout,
            context,
            seq![Outcome::Clock { now }, Outcome::Revocations { records: None }],
            StepView::Revoke {
                delete: Seq::empty(),
                nonce: session.nonce,
                exp_unix: Some(session.exp_unix),
            },
        ),
{
    let call = Call::Logout;
    nothing_yet(call, context);
    one_more(call, context, seq![], Outcome::Clock { now });
    let unlisted = Outcome::Revocations { records: None };
    one_more(call, context, seq![Outcome::Clock { now }], unlisted);
    assert(seq![Outcome::Clock { now }].push(unlisted) =~= seq![Outcome::Clock { now }, unlisted]);
}

/// Without a session there is nothing to log out.
pub proof fn logout_needs_a_session(context: AuthContextView)
    requires
        context.session is None || context.session_bytes is None,
    ensures
        answers_with(
            Call::Logout,
            context,
            seq![],
            Status::Unauthorized,
            BodyView::Error { message: "no session"@ },
        ),
{
    nothing_yet(Call::Logout, context);
}

// ---------------------------------------------------------------------------
// Board
// ---------------------------------------------------------------------------

/// A board call whose filter is absent or blank lists every task.
pub proof fn boards_without_a_filter_are_whole(params: BoardParams, context: AuthContextView)
    requires
        params.states matches Some(text) ==> forall|i: int|
            0 <= i < text@.len() ==> is_white_space(#[trigger] text@[i]),
    ensures
        asks_for(
            Call::Board { params },
            context,
            seq![],
            StepView::ListBoard { states: None },
        ),
{
    nothing_yet(Call::Board { params }, context);
    match params.states {
        Some(text) => {
            blank_queries_select_everything(text@);
        },
        None => {},
    }
}

/// A board call that lists the names of some states, separated by commas, lists
/// the tasks in exactly those, in that order.
pub proof fn filtered_boards_hold_the_named_states(
    params: BoardParams,
    context: AuthContextView,
    states: Seq<TaskState>,
)
    requires
        states.len() > 0,
        params.states matches Some(text) && text@ == written(states),
    ensures
        asks_for(
            Call::Board { params },
            context,
            seq![],
            StepView::ListBoard { states: Some(states) },
        ),
{
    nothing_yet(Call::Board { params }, context);
    written_query_selects(states);
}

/// A board call is either answered with 400 and the filter's message, or lists
/// what the filter selects.
pub proof fn boards_follow_the_filter(params: BoardParams, context: AuthContextView)
    ensures
        params.states matches Some(text) ==> match selected(Some(text@)) {
            Ok(states) => asks_for(
                Call::Board { params },
                context,
                seq![],
                StepView::ListBoard { states },
            ),
            Err(message) => answers_with(
                Call::Board { params },
                context,
                seq![],
                Status::BadRequest,
                BodyView::Error { message },
            ),
        },
{
    nothing_yet(Call::Board { params }, context);
}

/// Whether these columns hold each listed task once, under its state.
pub open spec fn shows_the_listing(columns: Seq<ColumnView>, states: Seq<TaskState>) -> bool {
    &&& forall|at: usize|
        at < states.len() ==> exists|k: int|
            0 <= k < columns.len() && (#[trigger] columns[k]).state == #[trigger] states[at as int]
                && columns[k].tasks.contains(at)
    &&& forall|k: int, at: usize|
        0 <= k < columns.len() && #[trigger] columns[k].tasks.contains(at) ==> at < states.len()
            && states[at as int] == columns[k].state
    &&& forall|k: int, i: int, j: int|
        0 <= k < columns.len() && 0 <= i < j < columns[k].tasks.len()
            ==> #[trigger] columns[k].tasks[i] < #[trigger] columns[k].tasks[j]
    &&& forall|k: int, l: int|
        0 <= k < l < columns.len() ==> (#[trigger] columns[k]).state != (#[trigger] columns[l]).state
}

/// A listing is answered with every task that was listed, each once, in the
/// column of its state; a board that could not list them with 500.
pub proof fn listings_are_answered_whole(
    params: BoardParams,
    context: AuthContextView,
    states: Vec<TaskState>,
)
    requires
        after(Call::Board { params }, context, seq![]).step is ListBoard,
        states@.len() <= usize::MAX,
    ensures
        in_turn(Call::Board { params }, context, seq![Outcome::Listed { states: Some(states) }]),
        after(
            Call::Board { params },
            context,
            seq![Outcome::Listed { states: Some(states) }],
        ).step matches StepView::Answer { answer } && answer.status is Success && (
        answer.body matches BodyView::Columns { columns } && shows_the_listing(columns, states@)),
        answers_with(
            Call::Board { params },
            context,
            seq![Outcome::Listed { states: None }],
            Status::InternalServerError,
            BodyView::Error { message: "board listing failed"@ },
        ),
{
    let call = Call::Board { params };
    nothing_yet(call, context);
    one_more(call, context, seq![], Outcome::Listed { states: Some(states) });
    one_more(call, context, seq![], Outcome::Listed { states: None });
    columns_partition_the_listing(states@);
    let columns = columns_of(states@);
    assert forall|at: usize| at < states@.len() implies exists|k: int|
        0 <= k < columns.len() && (#[trigger] columns[k]).state == #[trigger] states@[at as int]
            && columns[k].tasks.contains(at) by {
        let k = choose|k: int|
            0 <= k < columns.len() && (#[trigger] columns[k]).state == states@[at as int];
        assert(columns[k].tasks.contains(at));
    }
}

// ---------------------------------------------------------------------------
// Tasks
// ---------------------------------------------------------------------------

/// Whether this is how the board knows whoever acts: the verified user.
pub open spec fn acts_as(context: AuthContextView, actor: Seq<char>) -> bool {
    match context.user {
        Some(user) => actor == "human:"@ + user.id,
        None => actor == "human:unknown"@,
    }
}

/// The task whose id a path spells is the one that is fetched, and it is
/// answered if the board has it; a path that spells no id, and an id that the
/// board does not have, are both answered with 404.
pub proof fn fetches_are_of_the_named_task(id: String, context: AuthContextView)
    ensures
        uuid_bits(id@) matches Some(bits) ==> asks_for(
            Call::GetTask { id },
            context,
            seq![],
            StepView::FetchTask { id: bits },
        ) && answers_with(
            Call::GetTask { id },
            context,
            seq![Outcome::Accepted { accepted: true }],
            Status::Success,
            BodyView::Task,
        ) && answers_with(
            Call::GetTask { id },
            context,
            seq![Outcome::Accepted { accepted: false }],
            Status::NotFound,
            BodyView::Error { message: "task not found"@ },
        ),
        uuid_bits(id@) is None ==> answers_with(
            Call::GetTask { id },
            context,
            seq![],
            Status::NotFound,
            BodyView::Error { message: "task not found"@ },
        ),
{
    let call = Call::GetTask { id };
    nothing_yet(call, context);
    one_more(call, context, seq![], Outcome::Accepted { accepted: true });
    one_more(call, context, seq![], Outcome::Accepted { accepted: false });
}

/// A task is created with the title and the dependencies of the body, by the
/// verified user. It is answered with exactly the id that the board gave it, and
/// a board that created none with 400.
pub proof fn created_tasks_keep_their_body_and_id(
    body: CreateTaskBody,
    context: AuthContextView,
    id: u128,
)
    ensures
        in_turn(Call::CreateTask { body }, context, seq![]),
        after(
            Call::CreateTask { body },
            context,
            seq![],
        ).step matches StepView::CreateTask { task } && task.title == body.title@
            && task.depends_on == body.depends_on@ && acts_as(context, task.actor),
        answers_with(
            Call::CreateTask { body },
            context,
            seq![Outcome::Created { id: Some(id) }],
            Status::Created,
            BodyView::TaskId { id },
        ),
        answers_with(
            Call::CreateTask { body },
            context,
            seq![Outcome::Created { id: None }],
            Status::BadRequest,
            BodyView::Error { message: "task creation failed"@ },
        ),
{
    let call = Call::CreateTask { body };
    nothing_yet(call, context);
    one_more(call, context, seq![], Outcome::Created { id: Some(id) });
    one_more(call, context, seq![], Outcome::Created { id: None });
}

/// The named task is moved to the state of the body, for the reason of the body
/// if it gives one, by the verified user.
pub proof fn transitions_are_those_of_the_body(
    id: String,
    body: TransitionBody,
    context: AuthContextView,
    bits: u128,
)
    requires
        uuid_bits(id@) == Some(bits),
    ensures
        in_turn(Call::TransitionTask { id, body }, context, seq![]),
        after(
            Call::TransitionTask { id, body },
            context,
            seq![],
        ).step matches StepView::TransitionTask { id: named, transition } && named == bits
            && transition.to == body.to && acts_as(context, transition.actor) && (match body.reason {
            Some(reason) => transition.reason == Some(reason@),
            None => transition.reason is None,
        }),
        answers_with(
            Call::TransitionTask { id, body },
            context,
            seq![Outcome::Accepted { accepted: true }],
            Status::Success,
            BodyView::Acknowledged,
        ),
        answers_with(
            Call::TransitionTask { id, body },
            context,
            seq![Outcome::Accepted { accepted: false }],
            Status::BadRequest,
            BodyView::Error { message: "transition rejected"@ },
        ),
{
    let call = Call::TransitionTask { id, body };
    nothing_yet(call, context);
    one_more(call, context, seq![], Outcome::Accepted { accepted: true });
    one_more(call, context, seq![], Outcome::Accepted { accepted: false });
}

/// The named task is claimed for the verified user; a claim that the board
/// refuses is a conflict.
pub proof fn claims_are_for_the_verified_user(id: String, context: AuthContextView, bits: u128)
    requires
        uuid_bits(id@) == Some(bits),
    ensures
        in_turn(Call::ClaimTask { id }, context, seq![]),
        after(Call::ClaimTask { id }, context, seq![]).step matches StepView::ClaimTask {
            id: named,
            actor,
        } && named == bits && acts_as(context, actor),
        answers_with(
            Call::ClaimTask { id },
            context,
            seq![Outcome::Accepted { accepted: true }],
            Status::Success,
            BodyView::Acknowledged,
        ),
        answers_with(
            Call::ClaimTask { id },
            context,
            seq![Outcome::Accepted { accepted: false }],
            Status::Conflict,
            BodyView::Error { message: "claim rejected"@ },
        ),
{
    let call = Call::ClaimTask { id };
    nothing_yet(call, context);
    one_more(call, context, seq![], Outcome::Accepted { accepted: true });
    one_more(call, context, seq![], Outcome::Accepted { accepted: false });
}

/// The named task is blocked for the reason of the body, by the verified user,
/// who is also whom it is blocked by.
pub proof fn blocks_give_the_reason_of_the_body(
    id: String,
    body: BlockBody,
    context: AuthContextView,
    bits: u128,
)
    requires
        uuid_bits(id@) == Some(bits),
    ensures
        in_turn(Call::BlockTask { id, body }, context, seq![]),
        after(Call::BlockTask { id, body }, context, seq![]).step matches StepView::BlockTask {
            id: named,
            block,
        } && named == bits && block.reason == body.reason@ && acts_as(context, block.actor)
            && acts_as(context, block.blocked_by),
        answers_with(
            Call::BlockTask { id, body },
            context,
            seq![Outcome::Accepted { accepted: true }],
            Status::Success,
            BodyView::Acknowledged,
        ),
        answers_with(
            Call::BlockTask { id, body },
            context,
            seq![Outcome::Accepted { accepted: false }],
            Status::BadRequest,
            BodyView::Error { message: "block rejected"@ },
        ),
{
    let call = Call::BlockTask { id, body };
    nothing_yet(call, context);
    one_more(call, context, seq![], Outcome::Accepted { accepted: true });
    one_more(call, context, seq![], Outcome::Accepted { accepted: false });
}

/// A path that spells no id names no task, whatever is asked of it: the board is
/// not asked, and the answer is 404.
pub proof fn unreadable_ids_name_no_task(call: Call, context: AuthContextView)
    requires
        match call {
            Call::GetTask { id } => uuid_bits(id@) is None,
            Call::TransitionTask { id, .. } => uuid_bits(id@) is None,
            Call::ClaimTask { id } => uuid_bits(id@) is None,
            Call::BlockTask { id, .. } => uuid_bits(id@) is None,
            _ => false,
        },
    ensures
        answers_with(
            call,
            context,
            seq![],
            Status::NotFound,
            BodyView::Error { message: "task not found"@ },
        ),
{
    nothing_yet(call, context);
}

// ---------------------------------------------------------------------------
// Configuration, plugins, logs, audit
// ---------------------------------------------------------------------------

/// A configuration is shown as it was read, field by field; one that does not
/// load or cannot be written out is answered with 500.
pub proof fn configurations_are_shown_as_read(context: AuthContextView, config: ConfigDocument)
    ensures
        asks_for(Call::GetConfig, context, seq![], StepView::RenderConfig),
        in_turn(
            Call::GetConfig,
            context,
            seq![Outcome::ConfigRead { read: ConfigRead::Rendered { config } }],
        ),
        after(
            Call::GetConfig,
            context,
            seq![Outcome::ConfigRead { read: ConfigRead::Rendered { config } }],
        ).step matches StepView::Answer { answer } && answer.status is Success && (
        answer.body matches BodyView::Config { config: shown } && shown.toml == config.toml@
            && shown.security.allow_shell == config.security.allow_shell
            && shown.security.allow_git == config.security.allow_git
            && same_texts(shown.security.file_read_prefixes, config.security.file_read_prefixes@)
            && same_texts(shown.security.file_write_prefixes, config.security.file_write_prefixes@)
            && same_texts(shown.security.network_allowlist, config.security.network_allowlist@)),
        answers_with(
            Call::GetConfig,
            context,
            seq![Outcome::ConfigRead { read: ConfigRead::LoadFailed }],
            Status::InternalServerError,
            BodyView::Error { message: "config load failed"@ },
        ),
        answers_with(
            Call::GetConfig,
            context,
            seq![Outcome::ConfigRead { read: ConfigRead::SerialiseFailed }],
            Status::InternalServerError,
            BodyView::Error { message: "config serialise failed"@ },
        ),
{
    let call = Call::GetConfig;
    nothing_yet(call, context);
    one_more(
        call,
        context,
        seq![],
        Outcome::ConfigRead { read: ConfigRead::Rendered { config } },
    );
    one_more(call, context, seq![], Outcome::ConfigRead { read: ConfigRead::LoadFailed });
    one_more(call, context, seq![], Outcome::ConfigRead { read: ConfigRead::SerialiseFailed });
}

/// Whether these are the texts of the strings, in order.
pub open spec fn same_texts(shown: Seq<Seq<char>>, strings: Seq<String>) -> bool {
    shown.len() == strings.len() && forall|i: int|
        0 <= i < shown.len() ==> #[trigger] shown[i] == strings[i]@
}

/// A submitted configuration is parsed as it came, validated and saved, and
/// acknowledged exactly if all three went well. Why it is refused is recorded,
/// under the check that refused it, and not sent.
pub proof fn submissions_are_parsed_as_they_came(
    text: String,
    context: AuthContextView,
    detail: String,
)
    ensures
        ({
            let call = Call::PutConfig { text };
            let passed = Outcome::Checked { refusal: None };
            let refused = Outcome::Checked { refusal: Some(detail) };
            let saved = Outcome::Accepted { accepted: true };
            let failed = Outcome::Accepted { accepted: false };
            let refusal = BodyView::Error { message: "invalid configuration"@ };
            &&& asks_for(call, context, seq![], StepView::ParseConfig { text: text@ })
            &&& asks_for(call, context, seq![passed], StepView::ValidateConfig)
            &&& asks_for(call, context, seq![passed, passed], StepView::SaveConfig)
            &&& answers_with(
                call,
                context,
                seq![passed, passed, saved],
                Status::Success,
                BodyView::Acknowledged,
            )
            &&& answers_with(
                call,
                context,
                seq![passed, passed, failed],
                Status::InternalServerError,
                BodyView::Error { message: "config save failed"@ },
            )
            &&& asks_for(
                call,
                context,
                seq![refused],
                StepView::Record {
                    decision: DecisionView {
                        allowed: false,
                        detail: "config parse rejected: "@ + detail@,
                    },
                },
            )
            &&& answers_with(
                call,
                context,
                seq![refused, Outcome::Done],
                Status::BadRequest,
                refusal,
            )
            &&& asks_for(
                call,
                context,
                seq![passed, refused],
                StepView::Record {
                    decision: DecisionView {
                        allowed: false,
                        detail: "config validation rejected: "@ + detail@,
                    },
                },
            )
            &&& answers_with(
                call,
                context,
                seq![passed, refused, Outcome::Done],
                Status::BadRequest,
                refusal,
            )
        }),
{
    let call = Call::PutConfig { text };
    let passed = Outcome::Checked { refusal: None };
    let refused = Outcome::Checked { refusal: Some(detail) };
    nothing_yet(call, context);
    one_more(call, context, seq![], passed);
    one_more(call, context, seq![], refused);
    one_more(call, context, seq![refused], Outcome::Done);
    one_more(call, context, seq![passed], passed);
    one_more(call, context, seq![passed], refused);
    one_more(call, context, seq![passed, refused], Outcome::Done);
    let saved = Outcome::Accepted { accepted: true };
    let failed = Outcome::Accepted { accepted: false };
    one_more(call, context, seq![passed, passed], saved);
    one_more(call, context, seq![passed, passed], failed);
    assert(seq![refused].push(Outcome::Done) =~= seq![refused, Outcome::Done]);
    assert(seq![passed].push(passed) =~= seq![passed, passed]);
    assert(seq![passed].push(refused) =~= seq![passed, refused]);
    assert(seq![passed, refused].push(Outcome::Done) =~= seq![passed, refused, Outcome::Done]);
    assert(seq![passed, passed].push(saved) =~= seq![passed, passed, saved]);
    assert(seq![passed, passed].push(failed) =~= seq![passed, passed, failed]);
}

/// A plugin listing holds every configured plugin, field by field, in the order
/// of the configuration.
pub proof fn plugins_are_listed_field_by_field(
    context: AuthContextView,
    configured: Vec<PluginManifest>,
)
    ensures
        asks_for(Call::Plugins, context, seq![], StepView::ReadPlugins),
        in_turn(Call::Plugins, context, seq![Outcome::PluginsRead { plugins: Some(configured) }]),
        after(
            Call::Plugins,
            context,
            seq![Outcome::PluginsRead { plugins: Some(configured) }],
        ).step matches StepView::Answer { answer } && answer.status is Success && (
        answer.body matches BodyView::Plugins { plugins } && plugins.len() == configured@.len()
            && forall|i: int|
            0 <= i < plugins.len() ==> (#[trigger] plugins[i]).name == configured@[i].name@
                && plugins[i].version == configured@[i].version@ && plugins[i].class
                == configured@[i].class@ && plugins[i].enabled == configured@[i].enabled
                && plugins[i].capabilities == configured@[i].capabilities@),
        answers_with(
            Call::Plugins,
            context,
            seq![Outcome::PluginsRead { plugins: None }],
            Status::InternalServerError,
            BodyView::Error { message: "config load failed"@ },
        ),
{
    nothing_yet(Call::Plugins, context);
    one_more(Call::Plugins, context, seq![], Outcome::PluginsRead { plugins: Some(configured) });
    one_more(Call::Plugins, context, seq![], Outcome::PluginsRead { plugins: None });
}

/// The call log is answered as it was read: its entries, none where there is no
/// log, and 500 where it could not be read.
pub proof fn logs_are_answered_as_read(context: AuthContextView)
    ensures
        asks_for(Call::Logs, context, seq![], StepView::ReadLogs),
        answers_with(
            Call::Logs,
            context,
            seq![Outcome::LogRead { read: LogRead::Entries }],
            Status::Success,
            BodyView::Logs,
        ),
        answers_with(
            Call::Logs,
            context,
            seq![Outcome::LogRead { read: LogRead::NotConfigured }],
            Status::Success,
            BodyView::NoLogs,
        ),
        answers_with(
            Call::Logs,
            context,
            seq![Outcome::LogRead { read: LogRead::Failed }],
            Status::InternalServerError,
            BodyView::Error { message: "log read failed"@ },
        ),
{
    nothing_yet(Call::Logs, context);
    one_more(Call::Logs, context, seq![], Outcome::LogRead { read: LogRead::Entries });
    one_more(Call::Logs, context, seq![], Outcome::LogRead { read: LogRead::NotConfigured });
    one_more(Call::Logs, context, seq![], Outcome::LogRead { read: LogRead::Failed });
}

/// The audit chain is answered with whether it verifies, and never with more
/// confidence than that.
pub proof fn audits_tell_whether_the_chain_verifies(context: AuthContextView, verified: bool)
    ensures
        asks_for(Call::Audit, context, seq![], StepView::ReadAudit),
        answers_with(
            Call::Audit,
            context,
            seq![Outcome::Chain { verified }],
            Status::Success,
            BodyView::Audit { chain_verified: verified },
        ),
{
    nothing_yet(Call::Audit, context);
    one_more(Call::Audit, context, seq![], Outcome::Chain { verified });
}

} // verus!
