//! What the middleware guarantees, whatever the outside answers.

use vstd::prelude::*;

use crate::auth::{
    anonymous, bearer, client_identity, denied, expired, granted, presented, revocation_refusal,
    session_identity, session_parts, AuthContextView, PresentedView, RequestHeadView, RequiredAuth,
};
use crate::enforcement::{
    expects, next, opening, rate_key, rate_limited, within_limit, ActionView, EnforcementView,
    EventView, SessionView, StageView, Turn,
};
use crate::outside::sha256;
use crate::reply::{refusal, DecisionView, RejectionView, Status};
use crate::session::{base64_reads_back, token_text, tokens_read_back, SessionPayloadView};
use crate::state::{RevocationStatus, MAX_BODY_BYTES};
use crate::users::{Role, UserView};

verus! {

/// The answers that the outside would give in one request, asked or not.
pub struct Answers {
    pub token_spent: bool,
    pub body: Option<Seq<u8>>,
    pub client: Option<Seq<char>>,
    pub payload: Option<SessionPayloadView>,
    pub clock: Option<i64>,
    pub stamp_valid: bool,
    pub revocation: RevocationStatus,
    pub user: Option<UserView>,
}

/// The event that answers an action.
pub open spec fn answer(action: ActionView, answers: Answers) -> EventView {
    match action {
        ActionView::SpendToken { .. } => EventView::TokenSpent { allowed: answers.token_spent },
        ActionView::ReadBody { .. } => EventView::Body { body: answers.body },
        ActionView::VerifyClient { .. } => EventView::Client { client_id: answers.client },
        ActionView::DecodePayload { .. } => EventView::Payload { payload: answers.payload },
        ActionView::ReadClock => EventView::Clock { now: answers.clock },
        ActionView::CheckStamp { .. } => EventView::StampValid { valid: answers.stamp_valid },
        ActionView::LookUpRevocation { .. } => EventView::Revocation { status: answers.revocation },
        ActionView::FetchUser { .. } => EventView::Fetched { user: answers.user },
        _ => EventView::Done,
    }
}

/// Whether an action ends the machine.
pub open spec fn is_final(action: ActionView) -> bool {
    action is Admit || action is Reject
}

/// The turn of a request after `steps` answers; the last one stays.
#[verifier::opaque]
pub open spec fn turn_at(
    required: RequiredAuth,
    head: RequestHeadView,
    answers: Answers,
    steps: nat,
) -> Turn
    decreases steps,
{
    if steps == 0 {
        opening(required, head)
    } else {
        let turn = turn_at(required, head, answers, (steps - 1) as nat);
        if is_final(turn.action) {
            turn
        } else {
            next(turn.state, answer(turn.action, answers))
        }
    }
}

/// Whether a request's run asks for this action after `steps` answers or more.
pub open spec fn asks_from(
    required: RequiredAuth,
    head: RequestHeadView,
    answers: Answers,
    steps: nat,
    action: ActionView,
) -> bool {
    exists|at: nat|
        at >= steps && (#[trigger] turn_at(required, head, answers, at)).action == action
}

/// Whether a request's run asks for this action.
pub open spec fn asks(
    required: RequiredAuth,
    head: RequestHeadView,
    answers: Answers,
    action: ActionView,
) -> bool {
    asks_from(required, head, answers, 0, action)
}

/// A number of answers within which every request has ended.
pub open spec fn last_step() -> nat {
    10
}

/// The refusal of a session, or the user it belongs to.
pub open spec fn session_verdict(head: RequestHeadView, answers: Answers) -> Result<
    UserView,
    RejectionView,
> {
    match (session_parts(head.headers), answers.payload) {
        (Err(rejection), _) => Err(rejection),
        (Ok(_), None) => Err(refusal(Status::Unauthorized, "bad session"@)),
        (Ok(_), Some(payload)) => if expired(answers.clock, payload.exp_unix) {
            Err(refusal(Status::Unauthorized, "session expired"@))
        } else if !answers.stamp_valid {
            Err(refusal(Status::Unauthorized, "session invalid"@))
        } else {
            match (revocation_refusal(answers.revocation), answers.user) {
                (Some(rejection), _) => Err(rejection),
                (None, None) => Err(refusal(Status::Unauthorized, "unknown user"@)),
                (None, Some(user)) => if user.active {
                    Ok(user)
                } else {
                    Err(refusal(Status::Unauthorized, "user disabled"@))
                },
            }
        },
    }
}

/// How a request ends.
pub open spec fn verdict(
    required: RequiredAuth,
    head: RequestHeadView,
    answers: Answers,
) -> Result<AuthContextView, RejectionView> {
    if rate_limited(required) && !answers.token_spent {
        Err(refusal(Status::TooManyRequests, "rate limited"@))
    } else if required is PublicBootstrap {
        Ok(anonymous())
    } else {
        match within_limit(answers.body) {
            None => Err(refusal(Status::PayloadTooLarge, "request body too large"@)),
            Some(body) => match (presented(head, sha256(body)), answers.client) {
                (Err(rejection), _) => Err(rejection),
                (Ok(_), None) => Err(refusal(Status::Unauthorized, "client auth failed"@)),
                (Ok(_), Some(client_id)) => match required {
                    RequiredAuth::Role(role) => match session_verdict(head, answers) {
                        Err(rejection) => Err(rejection),
                        Ok(user) => if user.roles.contains(role) {
                            Ok(
                                session_identity(
                                    client_id,
                                    user,
                                    answers.payload->0,
                                    session_parts(head.headers)->Ok_0.0,
                                ),
                            )
                        } else {
                            Err(refusal(Status::Forbidden, "forbidden"@))
                        },
                    },
                    _ => Ok(client_identity(client_id)),
                },
            },
        }
    }
}

/// The action that ends a run with this verdict.
pub open spec fn ending(verdict: Result<AuthContextView, RejectionView>) -> ActionView {
    match verdict {
        Ok(context) => ActionView::Admit { context },
        Err(rejection) => ActionView::Reject { rejection },
    }
}

/// A run starts with the opening turn.
pub proof fn opens(required: RequiredAuth, head: RequestHeadView, answers: Answers)
    ensures
        turn_at(required, head, answers, 0) == opening(required, head),
{
    reveal_with_fuel(turn_at, 1);
}

/// One answer takes an unfinished run one turn further.
pub proof fn advance(
    required: RequiredAuth,
    head: RequestHeadView,
    answers: Answers,
    steps: nat,
    turn: Turn,
)
    requires
        turn_at(required, head, answers, steps) == turn,
        !is_final(turn.action),
    ensures
        turn_at(required, head, answers, steps + 1) == next(
            turn.state,
            answer(turn.action, answers),
        ),
        forall|action: ActionView| #[trigger]
            asks_from(required, head, answers, steps, action) <==> action == turn.action
                || asks_from(required, head, answers, steps + 1, action),
{
    reveal_with_fuel(turn_at, 2);
    assert forall|action: ActionView| #[trigger]
        asks_from(required, head, answers, steps, action) <==> action == turn.action || asks_from(
        required,
        head,
        answers,
        steps + 1,
        action,
    ) by {
        if asks_from(required, head, answers, steps, action) {
            let at = choose|at: nat|
                at >= steps && (#[trigger] turn_at(required, head, answers, at)).action == action;
            assert(at == steps || at >= steps + 1);
        }
        if action == turn.action {
            assert(turn_at(required, head, answers, steps).action == action);
        }
        if asks_from(required, head, answers, steps + 1, action) {
            let at = choose|at: nat|
                at >= steps + 1 && (#[trigger] turn_at(required, head, answers, at)).action
                    == action;
            assert(at >= steps);
        }
    }
}

/// A run that has ended stays as it is.
pub proof fn settled(
    required: RequiredAuth,
    head: RequestHeadView,
    answers: Answers,
    from: nat,
    to: nat,
)
    requires
        from <= to,
        is_final(turn_at(required, head, answers, from).action),
    ensures
        turn_at(required, head, answers, to) == turn_at(required, head, answers, from),
    decreases to,
{
    if from < to {
        settled(required, head, answers, from, (to - 1) as nat);
        reveal_with_fuel(turn_at, 2);
    }
}

/// A finished run asks for nothing more.
proof fn stays(
    required: RequiredAuth,
    head: RequestHeadView,
    answers: Answers,
    from: nat,
    to: nat,
    turn: Turn,
)
    requires
        from <= to,
        turn_at(required, head, answers, from) == turn,
        is_final(turn.action),
    ensures
        turn_at(required, head, answers, to) == turn,
        forall|action: ActionView| #[trigger]
            asks_from(required, head, answers, from, action) <==> action == turn.action,
{
    settled(required, head, answers, from, to);
    assert forall|action: ActionView| #[trigger]
        asks_from(required, head, answers, from, action) <==> action == turn.action by {
        if asks_from(required, head, answers, from, action) {
            let at = choose|at: nat|
                at >= from && (#[trigger] turn_at(required, head, answers, at)).action == action;
            settled(required, head, answers, from, at);
        }
        if action == turn.action {
            assert(turn_at(required, head, answers, from).action == action);
        }
    }
}

/// The turn that stands at `stage` and asks for `action`.
spec fn at_stage(
    required: RequiredAuth,
    head: RequestHeadView,
    stage: StageView,
    action: ActionView,
) -> Turn {
    Turn { state: EnforcementView { required, head, stage }, action }
}

/// How a session check ends once the user is asked for.
spec fn user_verdict(session: SessionView, answers: Answers) -> Result<
    AuthContextView,
    RejectionView,
> {
    match answers.user {
        None => Err(refusal(Status::Unauthorized, "unknown user"@)),
        Some(user) => if !user.active {
            Err(refusal(Status::Unauthorized, "user disabled"@))
        } else if !user.roles.contains(session.role) {
            Err(refusal(Status::Forbidden, "forbidden"@))
        } else {
            Ok(session_identity(session.client_id, user, session.payload, session.bytes))
        },
    }
}

/// Whether the user is there, active and holds the role.
spec fn entitled(session: SessionView, answers: Answers) -> bool {
    answers.user matches Some(user) && user.active && user.roles.contains(session.role)
}

/// Whether the user is there, active and lacks the role.
spec fn lacks_role(session: SessionView, answers: Answers) -> bool {
    answers.user matches Some(user) && user.active && !user.roles.contains(session.role)
}

/// Whether the token is fresh.
spec fn fresh(session: SessionView, answers: Answers) -> bool {
    !expired(answers.clock, session.payload.exp_unix)
}

/// Whether the token is fresh, stamped and not revoked.
spec fn cleared(session: SessionView, answers: Answers) -> bool {
    fresh(session, answers) && answers.stamp_valid && answers.revocation is NotRevoked
}

/// What a session check may ask for, and when.
spec fn within_session(
    session: SessionView,
    head: RequestHeadView,
    answers: Answers,
    action: ActionView,
) -> bool {
    match action {
        ActionView::ReadClock => true,
        ActionView::CheckStamp { payload, .. } => fresh(session, answers) && payload
            == session.bytes,
        ActionView::LookUpRevocation { nonce } => fresh(session, answers) && answers.stamp_valid
            && nonce == session.payload.nonce,
        ActionView::FetchUser { user_id } => cleared(session, answers) && user_id
            == session.payload.user_id,
        ActionView::Record { decision } => cleared(session, answers) && (entitled(session, answers)
            && decision == granted(
            session.client_id,
            answers.user->0.id,
            head.method,
            head.path,
        ) || lacks_role(session, answers) && decision == denied(
            answers.user->0.id,
            session.role,
        )),
        ActionView::Admit { .. } => true,
        ActionView::Reject { .. } => true,
        _ => false,
    }
}

/// The record that a session check leaves, where it leaves one.
spec fn session_record(
    session: SessionView,
    head: RequestHeadView,
    answers: Answers,
) -> ActionView {
    ActionView::Record {
        decision: if entitled(session, answers) {
            granted(session.client_id, answers.user->0.id, head.method, head.path)
        } else {
            denied(answers.user->0.id, session.role)
        },
    }
}

/// Whether a session check leaves a record.
spec fn leaves_record(session: SessionView, answers: Answers) -> bool {
    cleared(session, answers) && (entitled(session, answers) || lacks_role(session, answers))
}

/// How a session check ends once its payload is decoded.
spec fn checked(session: SessionView, answers: Answers) -> Result<AuthContextView, RejectionView> {
    if !fresh(session, answers) {
        Err(refusal(Status::Unauthorized, "session expired"@))
    } else if !answers.stamp_valid {
        Err(refusal(Status::Unauthorized, "session invalid"@))
    } else {
        match revocation_refusal(answers.revocation) {
            Some(rejection) => Err(rejection),
            None => user_verdict(session, answers),
        }
    }
}

proof fn from_user(
    required: RequiredAuth,
    head: RequestHeadView,
    answers: Answers,
    steps: nat,
    session: SessionView,
)
    requires
        cleared(session, answers),
        turn_at(required, head, answers, steps) == at_stage(
            required,
            head,
            StageView::FetchingUser { session },
            ActionView::FetchUser { user_id: session.payload.user_id },
        ),
    ensures
        turn_at(required, head, answers, steps + 2).action == ending(checked(session, answers)),
        forall|action: ActionView| #[trigger]
            asks_from(required, head, answers, steps, action) ==> within_session(
                session,
                head,
                answers,
                action,
            ),
        leaves_record(session, answers) ==> asks_from(
            required,
            head,
            answers,
            steps,
            session_record(session, head, answers),
        ),
{
    let turn = turn_at(required, head, answers, steps);
    advance(required, head, answers, steps, turn);
    let recorded = turn_at(required, head, answers, steps + 1);
    if is_final(recorded.action) {
        stays(required, head, answers, steps + 1, steps + 2, recorded);
    } else {
        advance(required, head, answers, steps + 1, recorded);
        let last = turn_at(required, head, answers, steps + 2);
        stays(required, head, answers, steps + 2, steps + 2, last);
    }
}

proof fn from_denylist(
    required: RequiredAuth,
    head: RequestHeadView,
    answers: Answers,
    steps: nat,
    session: SessionView,
)
    requires
        fresh(session, answers),
        answers.stamp_valid,
        turn_at(required, head, answers, steps) == at_stage(
            required,
            head,
            StageView::LookingUpRevocation { session },
            ActionView::LookUpRevocation { nonce: session.payload.nonce },
        ),
    ensures
        turn_at(required, head, answers, steps + 3).action == ending(checked(session, answers)),
        forall|action: ActionView| #[trigger]
            asks_from(required, head, answers, steps, action) ==> within_session(
                session,
                head,
                answers,
                action,
            ),
        leaves_record(session, answers) ==> asks_from(
            required,
            head,
            answers,
            steps,
            session_record(session, head, answers),
        ),
{
    let turn = turn_at(required, head, answers, steps);
    advance(required, head, answers, steps, turn);
    let after = turn_at(required, head, answers, steps + 1);
    if revocation_refusal(answers.revocation) is Some {
        stays(required, head, answers, steps + 1, steps + 3, after);
    } else {
        from_user(required, head, answers, steps + 1, session);
    }
}

proof fn from_clock(
    required: RequiredAuth,
    head: RequestHeadView,
    answers: Answers,
    steps: nat,
    session: SessionView,
    stamp: Seq<u8>,
)
    requires
        turn_at(required, head, answers, steps) == at_stage(
            required,
            head,
            StageView::ReadingClock { session, stamp },
            ActionView::ReadClock,
        ),
    ensures
        turn_at(required, head, answers, steps + 5).action == ending(checked(session, answers)),
        forall|action: ActionView| #[trigger]
            asks_from(required, head, answers, steps, action) ==> within_session(
                session,
                head,
                answers,
                action,
            ),
        leaves_record(session, answers) ==> asks_from(
            required,
            head,
            answers,
            steps,
            session_record(session, head, answers),
        ),
{
    let turn = turn_at(required, head, answers, steps);
    advance(required, head, answers, steps, turn);
    let timed = turn_at(required, head, answers, steps + 1);
    if !fresh(session, answers) {
        stays(required, head, answers, steps + 1, steps + 5, timed);
    } else {
        advance(required, head, answers, steps + 1, timed);
        let stamped = turn_at(required, head, answers, steps + 2);
        if !answers.stamp_valid {
            stays(required, head, answers, steps + 2, steps + 5, stamped);
        } else {
            from_denylist(required, head, answers, steps + 2, session);
        }
    }
}

/// The session check of a request whose token is well-formed and decoded.
spec fn session_of(role: Role, head: RequestHeadView, answers: Answers) -> SessionView {
    SessionView {
        role,
        client_id: answers.client->0,
        bytes: session_parts(head.headers)->Ok_0.0,
        payload: answers.payload->0,
    }
}

/// Whether the request carries a well-formed token that decodes.
spec fn has_session(head: RequestHeadView, answers: Answers) -> bool {
    session_parts(head.headers) is Ok && answers.payload is Some
}

/// How a `Role` route ends once the client is verified.
spec fn role_verdict(role: Role, head: RequestHeadView, answers: Answers) -> Result<
    AuthContextView,
    RejectionView,
> {
    match session_parts(head.headers) {
        Err(rejection) => Err(rejection),
        Ok(_) => match answers.payload {
            None => Err(refusal(Status::Unauthorized, "bad session"@)),
            Some(_) => checked(session_of(role, head, answers), answers),
        },
    }
}

/// What a `Role` route may ask for once the client is verified.
spec fn after_stamping(
    role: Role,
    head: RequestHeadView,
    answers: Answers,
    action: ActionView,
) -> bool {
    match action {
        ActionView::DecodePayload { payload } => session_parts(head.headers) matches Ok((bytes, _))
            && payload == bytes,
        ActionView::Reject { .. } => true,
        _ => has_session(head, answers) && within_session(
            session_of(role, head, answers),
            head,
            answers,
            action,
        ),
    }
}

proof fn from_stamping(
    role: Role,
    head: RequestHeadView,
    answers: Answers,
    steps: nat,
    canonical: Seq<u8>,
)
    requires
        answers.client is Some,
        turn_at(RequiredAuth::Role(role), head, answers, steps) == at_stage(
            RequiredAuth::Role(role),
            head,
            StageView::StampingRequest { client_id: answers.client->0 },
            ActionView::StampRequest { canonical },
        ),
    ensures
        turn_at(RequiredAuth::Role(role), head, answers, steps + 7).action == ending(
            role_verdict(role, head, answers),
        ),
        forall|action: ActionView| #[trigger]
            asks_from(RequiredAuth::Role(role), head, answers, steps, action) ==> action == (
            ActionView::StampRequest { canonical }) || after_stamping(role, head, answers, action),
        asks_from(
            RequiredAuth::Role(role),
            head,
            answers,
            steps,
            ActionView::StampRequest { canonical },
        ),
        has_session(head, answers) && leaves_record(session_of(role, head, answers), answers)
            ==> asks_from(
            RequiredAuth::Role(role),
            head,
            answers,
            steps,
            session_record(session_of(role, head, answers), head, answers),
        ),
{
    let required = RequiredAuth::Role(role);
    let turn = turn_at(required, head, answers, steps);
    advance(required, head, answers, steps, turn);
    let parsed = turn_at(required, head, answers, steps + 1);
    if session_parts(head.headers) is Err {
        stays(required, head, answers, steps + 1, steps + 7, parsed);
    } else {
        advance(required, head, answers, steps + 1, parsed);
        let decoded = turn_at(required, head, answers, steps + 2);
        if answers.payload is None {
            stays(required, head, answers, steps + 2, steps + 7, decoded);
        } else {
            from_clock(
                required,
                head,
                answers,
                steps + 2,
                session_of(role, head, answers),
                session_parts(head.headers)->Ok_0.1,
            );
        }
    }
}

/// Whether the client's signature is verified.
pub open spec fn client_verified(head: RequestHeadView, answers: Answers) -> bool {
    within_limit(answers.body) matches Some(body) && presented(head, sha256(body)) is Ok
        && answers.client is Some
}

/// What the request presents, where it presents anything.
pub open spec fn presentation(head: RequestHeadView, answers: Answers) -> PresentedView {
    presented(head, sha256(answers.body->0))->Ok_0
}

/// What a run may ask for from the body on.
spec fn after_body(
    required: RequiredAuth,
    head: RequestHeadView,
    answers: Answers,
    action: ActionView,
) -> bool {
    match action {
        ActionView::ReadBody { limit } => limit == MAX_BODY_BYTES,
        ActionView::Reject { .. } => true,
        ActionView::VerifyClient { presented } => presented == presentation(head, answers),
        ActionView::StampRequest { canonical } => client_verified(head, answers) && canonical
            == presentation(head, answers).canonical_request,
        ActionView::Admit { .. } => client_verified(head, answers),
        _ => client_verified(head, answers) && (required matches RequiredAuth::Role(role)
            && after_stamping(role, head, answers, action)),
    }
}

/// Whether a run leaves a record.
spec fn run_leaves_record(required: RequiredAuth, head: RequestHeadView, answers: Answers) -> bool {
    client_verified(head, answers) && has_session(head, answers) && (
    required matches RequiredAuth::Role(role) && leaves_record(
        session_of(role, head, answers),
        answers,
    ))
}

/// The record that a run leaves, where it leaves one.
spec fn run_record(required: RequiredAuth, head: RequestHeadView, answers: Answers) -> ActionView {
    session_record(session_of(required->Role_0, head, answers), head, answers)
}

#[verifier::spinoff_prover]
proof fn from_body(required: RequiredAuth, head: RequestHeadView, answers: Answers, steps: nat)
    requires
        !(required is PublicBootstrap),
        rate_limited(required) ==> answers.token_spent,
        turn_at(required, head, answers, steps) == at_stage(
            required,
            head,
            StageView::ReadingBody,
            ActionView::ReadBody { limit: MAX_BODY_BYTES },
        ),
    ensures
        turn_at(required, head, answers, steps + 9).action == ending(
            verdict(required, head, answers),
        ),
        forall|action: ActionView| #[trigger]
            asks_from(required, head, answers, steps, action) ==> after_body(
                required,
                head,
                answers,
                action,
            ),
        client_verified(head, answers) ==> asks_from(
            required,
            head,
            answers,
            steps,
            ActionView::StampRequest { canonical: presentation(head, answers).canonical_request },
        ),
        run_leaves_record(required, head, answers) ==> asks_from(
            required,
            head,
            answers,
            steps,
            run_record(required, head, answers),
        ),
{
    let turn = turn_at(required, head, answers, steps);
    advance(required, head, answers, steps, turn);
    let read = turn_at(required, head, answers, steps + 1);
    if is_final(read.action) {
        stays(required, head, answers, steps + 1, steps + 9, read);
    } else {
        advance(required, head, answers, steps + 1, read);
        let verified = turn_at(required, head, answers, steps + 2);
        if is_final(verified.action) {
            stays(required, head, answers, steps + 2, steps + 9, verified);
        } else {
            match required {
                RequiredAuth::Role(role) => {
                    from_stamping(
                        role,
                        head,
                        answers,
                        steps + 2,
                        presentation(head, answers).canonical_request,
                    );
                },
                _ => {
                    advance(required, head, answers, steps + 2, verified);
                    let stamped = turn_at(required, head, answers, steps + 3);
                    stays(required, head, answers, steps + 3, steps + 9, stamped);
                },
            }
        }
    }
}

/// What a run may ask for at all.
spec fn within_run(
    required: RequiredAuth,
    head: RequestHeadView,
    answers: Answers,
    action: ActionView,
) -> bool {
    match action {
        ActionView::SpendToken { key } => rate_limited(required) && key == rate_key(head.peer),
        ActionView::Reject { .. } => true,
        ActionView::Admit { .. } => true,
        _ => !(required is PublicBootstrap) && (rate_limited(required) ==> answers.token_spent)
            && after_body(required, head, answers, action),
    }
}

proof fn whole_run(required: RequiredAuth, head: RequestHeadView, answers: Answers)
    ensures
        turn_at(required, head, answers, last_step()).action == ending(
            verdict(required, head, answers),
        ),
        forall|action: ActionView| #[trigger]
            asks(required, head, answers, action) ==> within_run(required, head, answers, action),
        !(required is PublicBootstrap) && (rate_limited(required) ==> answers.token_spent)
            && client_verified(head, answers) ==> asks(
            required,
            head,
            answers,
            ActionView::StampRequest { canonical: presentation(head, answers).canonical_request },
        ),
        run_leaves_record(required, head, answers) ==> asks(
            required,
            head,
            answers,
            run_record(required, head, answers),
        ),
{
    opens(required, head, answers);
    let turn = turn_at(required, head, answers, 0);
    if rate_limited(required) {
        advance(required, head, answers, 0, turn);
        let spent = turn_at(required, head, answers, 1);
        if is_final(spent.action) {
            stays(required, head, answers, 1, last_step(), spent);
        } else {
            from_body(required, head, answers, 1);
        }
    } else {
        from_body(required, head, answers, 0);
        settled(required, head, answers, 9, last_step());
    }
}

/// Whether a turn's action is the one its stage waits on.
spec fn matched(turn: Turn) -> bool {
    match turn.action {
        ActionView::SpendToken { .. } => turn.state.stage is SpendingToken,
        ActionView::ReadBody { .. } => turn.state.stage is ReadingBody,
        ActionView::VerifyClient { .. } => turn.state.stage is VerifyingClient,
        ActionView::StampRequest { .. } => turn.state.stage is StampingRequest,
        ActionView::DecodePayload { .. } => turn.state.stage is DecodingPayload,
        ActionView::ReadClock => turn.state.stage is ReadingClock,
        ActionView::CheckStamp { .. } => turn.state.stage is CheckingStamp,
        ActionView::LookUpRevocation { .. } => turn.state.stage is LookingUpRevocation,
        ActionView::FetchUser { .. } => turn.state.stage is FetchingUser,
        ActionView::Record { .. } => turn.state.stage is RecordingGrant
            || turn.state.stage is RecordingDenial,
        _ => turn.state.stage is Finished,
    }
}

/// The answer to the action asked for is always one that the machine expects,
/// so a caller that answers each action can take every step.
pub proof fn answers_are_expected(
    required: RequiredAuth,
    head: RequestHeadView,
    answers: Answers,
    steps: nat,
)
    ensures
        ({
            let turn = turn_at(required, head, answers, steps);
            !is_final(turn.action) ==> expects(turn.state.stage, answer(turn.action, answers))
        }),
        ({
            let turn = turn_at(required, head, answers, steps);
            is_final(turn.action) <==> turn.state.stage is Finished
        }),
{
    always_matched(required, head, answers, steps);
}

proof fn always_matched(
    required: RequiredAuth,
    head: RequestHeadView,
    answers: Answers,
    steps: nat,
)
    ensures
        matched(turn_at(required, head, answers, steps)),
    decreases steps,
{
    if steps == 0 {
        opens(required, head, answers);
    } else {
        let before = (steps - 1) as nat;
        always_matched(required, head, answers, before);
        let turn = turn_at(required, head, answers, before);
        if is_final(turn.action) {
            settled(required, head, answers, before, steps);
        } else {
            advance(required, head, answers, before, turn);
            next_matched(turn, answers);
        }
    }
}

#[verifier::spinoff_prover]
proof fn next_matched(turn: Turn, answers: Answers)
    requires
        matched(turn),
        !is_final(turn.action),
    ensures
        matched(next(turn.state, answer(turn.action, answers))),
{
    let after = next(turn.state, answer(turn.action, answers));
    match turn.state.stage {
        StageView::SpendingToken => {
            assert(matched(after));
        },
        StageView::ReadingBody => {
            assert(matched(after));
        },
        StageView::VerifyingClient { .. } => {
            assert(matched(after));
        },
        StageView::StampingRequest { .. } => {
            assert(matched(after));
        },
        StageView::DecodingPayload { .. } => {
            assert(matched(after));
        },
        StageView::ReadingClock { .. } => {
            assert(matched(after));
        },
        StageView::CheckingStamp { .. } => {
            assert(matched(after));
        },
        StageView::LookingUpRevocation { .. } => {
            assert(matched(after));
        },
        StageView::FetchingUser { .. } => {
            assert(matched(after));
        },
        _ => {
            assert(matched(after));
        },
    }
}

/// Every request ends, and it ends with its verdict.
pub proof fn every_run_ends_with_the_verdict(
    required: RequiredAuth,
    head: RequestHeadView,
    answers: Answers,
    steps: nat,
)
    requires
        steps >= last_step(),
    ensures
        turn_at(required, head, answers, steps).action == ending(verdict(required, head, answers)),
{
    whole_run(required, head, answers);
    settled(required, head, answers, last_step(), steps);
}

/// Enrollment and login spend a token of the peer's bucket before anything
/// else; without one, nothing else happens and the answer is 429.
pub proof fn rate_limit_comes_first(
    required: RequiredAuth,
    head: RequestHeadView,
    answers: Answers,
    action: ActionView,
)
    requires
        rate_limited(required),
    ensures
        turn_at(required, head, answers, 0).action == (ActionView::SpendToken {
            key: rate_key(head.peer),
        }),
        !answers.token_spent ==> verdict(required, head, answers) == Err::<
            AuthContextView,
            RejectionView,
        >(refusal(Status::TooManyRequests, "rate limited"@)),
        !answers.token_spent && asks(required, head, answers, action) ==> action is SpendToken
            || action == ending(verdict(required, head, answers)),
{
    opens(required, head, answers);
    let turn = turn_at(required, head, answers, 0);
    advance(required, head, answers, 0, turn);
    if !answers.token_spent {
        let spent = turn_at(required, head, answers, 1);
        stays(required, head, answers, 1, last_step(), spent);
    }
}

/// A role's route never spends a rate-limit token.
pub proof fn role_routes_are_not_rate_limited(
    role: Role,
    head: RequestHeadView,
    answers: Answers,
    key: Seq<char>,
)
    ensures
        !asks(RequiredAuth::Role(role), head, answers, ActionView::SpendToken { key }),
{
    whole_run(RequiredAuth::Role(role), head, answers);
}

/// A role's route lets a request through exactly if the client's signature is
/// verified, the session token is well-formed, decodes, is fresh, carries a
/// valid stamp and is definitely not revoked, and the user as it stands now is
/// there, active, and holds that very role.
pub proof fn admitted_exactly_with_every_layer(
    role: Role,
    head: RequestHeadView,
    answers: Answers,
)
    ensures
        verdict(RequiredAuth::Role(role), head, answers) is Ok <==> {
            &&& client_verified(head, answers)
            &&& session_parts(head.headers) is Ok
            &&& answers.payload matches Some(payload)
            &&& !expired(answers.clock, payload.exp_unix)
            &&& answers.stamp_valid
            &&& answers.revocation is NotRevoked
            &&& answers.user matches Some(user)
            &&& user.active
            &&& user.roles.contains(role)
        },
        verdict(RequiredAuth::Role(role), head, answers) matches Ok(context) ==> context
            == session_identity(
            answers.client->0,
            answers.user->0,
            answers.payload->0,
            session_parts(head.headers)->Ok_0.0,
        ),
{
}

/// A minted token opens the routes of its user's roles: a request with a
/// verified client that carries the token of a payload and its stamp is let
/// through as long as the payload is fresh, the stamp valid, the session not
/// revoked and the user active with that role, and it is handed on with exactly
/// the bytes that were stamped.
pub proof fn minted_tokens_are_accepted(
    role: Role,
    head: RequestHeadView,
    answers: Answers,
    user: UserView,
    payload: SessionPayloadView,
    bytes: Seq<u8>,
    stamp: Seq<u8>,
)
    requires
        base64_reads_back(bytes),
        stamp.len() == 32,
        bearer(head.headers) == Some(token_text(bytes, stamp)),
        within_limit(answers.body) matches Some(body) && presented(head, sha256(body)) is Ok,
        answers.client is Some,
        answers.payload == Some(payload),
        !expired(answers.clock, payload.exp_unix),
        answers.stamp_valid,
        revocation_refusal(answers.revocation) is None,
        answers.user == Some(user),
        user.active,
        user.roles.contains(role),
    ensures
        verdict(RequiredAuth::Role(role), head, answers) == Ok::<AuthContextView, RejectionView>(
            session_identity(answers.client->0, user, payload, bytes),
        ),
{
    tokens_read_back(bytes, stamp);
}

/// No route but enrollment lets a request through without a verified client,
/// and only enrollment and login do so without a session.
pub proof fn only_enrollment_is_open(
    required: RequiredAuth,
    head: RequestHeadView,
    answers: Answers,
)
    ensures
        verdict(required, head, answers) matches Ok(context) ==> {
            &&& !(required is PublicBootstrap) ==> client_verified(head, answers)
                && context.client_id == answers.client->0
            &&& context.user is Some <==> required is Role
            &&& context.session is Some <==> required is Role
            &&& context.session_bytes is Some <==> required is Role
        },
{
}

/// Roles are not ranked: holding another role does not stand in for the one
/// that the route asks for.
pub proof fn roles_are_not_hierarchical(
    role: Role,
    head: RequestHeadView,
    answers: Answers,
)
    requires
        answers.user matches Some(user) && !user.roles.contains(role),
    ensures
        verdict(RequiredAuth::Role(role), head, answers) is Err,
{
}

/// A token past its expiry is refused before any MAC work: neither its stamp
/// nor the denylist nor the directory is consulted, and nothing is recorded.
pub proof fn expiry_comes_before_the_stamp(
    role: Role,
    head: RequestHeadView,
    answers: Answers,
    action: ActionView,
)
    requires
        answers.payload matches Some(payload) && expired(answers.clock, payload.exp_unix),
    ensures
        asks(RequiredAuth::Role(role), head, answers, action) ==> !(action is CheckStamp) && !(
        action is LookUpRevocation) && !(action is FetchUser) && !(action is Record),
        client_verified(head, answers) && session_parts(head.headers) is Ok ==> verdict(
            RequiredAuth::Role(role),
            head,
            answers,
        ) == Err::<AuthContextView, RejectionView>(
            refusal(Status::Unauthorized, "session expired"@),
        ),
{
    whole_run(RequiredAuth::Role(role), head, answers);
}

/// A clock that cannot be read proves no freshness, so every session is
/// refused.
pub proof fn broken_clock_fails_closed(role: Role, head: RequestHeadView, answers: Answers)
    requires
        answers.clock is None,
    ensures
        verdict(RequiredAuth::Role(role), head, answers) is Err,
{
}

/// A token with an invalid stamp never reaches the denylist or the directory,
/// so what those hold cannot be learned with it.
pub proof fn invalid_stamp_learns_nothing(
    role: Role,
    head: RequestHeadView,
    answers: Answers,
    revocation: RevocationStatus,
    user: Option<UserView>,
    action: ActionView,
)
    requires
        !answers.stamp_valid,
    ensures
        asks(RequiredAuth::Role(role), head, answers, action) ==> !(action is LookUpRevocation) && !(
        action is FetchUser) && !(action is Record),
        verdict(RequiredAuth::Role(role), head, answers) == verdict(
            RequiredAuth::Role(role),
            head,
            Answers { revocation, user, ..answers },
        ),
{
    whole_run(RequiredAuth::Role(role), head, answers);
}

/// A revoked session is answered as one whose stamp is invalid.
pub proof fn revoked_looks_like_invalid(role: Role, head: RequestHeadView, answers: Answers)
    requires
        answers.revocation is Revoked,
    ensures
        verdict(RequiredAuth::Role(role), head, answers) == verdict(
            RequiredAuth::Role(role),
            head,
            Answers { stamp_valid: false, ..answers },
        ),
{
}

/// A denylist that cannot answer denies: a session that would otherwise be
/// checked further is answered with 503, and the directory is not consulted.
pub proof fn uncertain_denylist_fails_closed(
    role: Role,
    head: RequestHeadView,
    answers: Answers,
    action: ActionView,
)
    requires
        answers.revocation is Unknown,
    ensures
        verdict(RequiredAuth::Role(role), head, answers) is Err,
        asks(RequiredAuth::Role(role), head, answers, action) ==> !(action is FetchUser) && !(
        action is Record),
        ({
            &&& client_verified(head, answers)
            &&& session_parts(head.headers) is Ok
            &&& answers.payload matches Some(payload)
            &&& !expired(answers.clock, payload.exp_unix)
            &&& answers.stamp_valid
        }) ==> verdict(RequiredAuth::Role(role), head, answers) == Err::<
            AuthContextView,
            RejectionView,
        >(refusal(Status::ServiceUnavailable, "revocation status unavailable"@)),
{
    whole_run(RequiredAuth::Role(role), head, answers);
}

/// The roles written in a token are advisory: only the user's current roles
/// decide. Tokens that differ in their roles alone get the same verdict, up to
/// the payload that is handed on.
pub proof fn token_roles_are_advisory(
    required: RequiredAuth,
    head: RequestHeadView,
    answers: Answers,
    roles: Seq<Role>,
)
    requires
        answers.payload is Some,
    ensures
        ({
            let payload = SessionPayloadView { roles, ..answers.payload->0 };
            let other = Answers { payload: Some(payload), ..answers };
            match verdict(required, head, answers) {
                Err(rejection) => verdict(required, head, other) == Err::<
                    AuthContextView,
                    RejectionView,
                >(rejection),
                Ok(context) => verdict(required, head, other) == Ok::<
                    AuthContextView,
                    RejectionView,
                >(
                    AuthContextView {
                        session: if required is Role {
                            Some(payload)
                        } else {
                            None
                        },
                        ..context
                    },
                ),
            }
        }),
{
}

/// The canonical bytes of a request are stamped into the audit chain exactly
/// if its client is verified, and they are the bytes that were signed.
pub proof fn verified_requests_are_stamped(
    required: RequiredAuth,
    head: RequestHeadView,
    answers: Answers,
    canonical: Seq<u8>,
)
    ensures
        asks(required, head, answers, ActionView::StampRequest { canonical }) <==> {
            &&& !(required is PublicBootstrap)
            &&& rate_limited(required) ==> answers.token_spent
            &&& client_verified(head, answers)
            &&& canonical == presentation(head, answers).canonical_request
        },
{
    whole_run(required, head, answers);
}

/// The audit chain records exactly the role decisions: a grant for every
/// request that a role's route lets through, a denial for every one that it
/// answers with 403, and nothing else.
pub proof fn role_decisions_are_recorded(
    required: RequiredAuth,
    head: RequestHeadView,
    answers: Answers,
    decision: DecisionView,
)
    ensures
        asks(required, head, answers, ActionView::Record { decision }) <==> (
        required matches RequiredAuth::Role(role) && match verdict(required, head, answers) {
            Ok(context) => decision == granted(
                context.client_id,
                context.user->0.id,
                head.method,
                head.path,
            ),
            Err(rejection) => rejection.status is Forbidden && decision == denied(
                answers.user->0.id,
                role,
            ),
        }),
{
    whole_run(required, head, answers);
}

/// A 403 tells only a caller that is fully authenticated that a role is
/// missing; any other refusal comes earlier and is not a 403.
pub proof fn forbidden_only_when_authenticated(
    required: RequiredAuth,
    head: RequestHeadView,
    answers: Answers,
)
    ensures
        (verdict(required, head, answers) matches Err(rejection) && rejection.status is Forbidden)
            <==> {
            &&& required matches RequiredAuth::Role(role)
            &&& client_verified(head, answers)
            &&& session_verdict(head, answers) matches Ok(user)
            &&& !user.roles.contains(role)
        },
{
}

/// Nothing is looked at beyond the client's signature unless it verifies: no
/// session is decoded or checked, no user is fetched, nothing is recorded.
pub proof fn signature_comes_before_the_session(
    required: RequiredAuth,
    head: RequestHeadView,
    answers: Answers,
    action: ActionView,
)
    requires
        !client_verified(head, answers),
        asks(required, head, answers, action),
    ensures
        action is SpendToken || action is ReadBody || action is VerifyClient || is_final(action),
        !(required is PublicBootstrap) ==> verdict(required, head, answers) is Err,
{
    whole_run(required, head, answers);
}

/// A body is never asked for past the limit, and one that could not be read or
/// is over the limit is answered with 413, before anything of the request is
/// verified.
pub proof fn oversized_bodies_are_refused(
    required: RequiredAuth,
    head: RequestHeadView,
    answers: Answers,
    limit: usize,
)
    ensures
        asks(required, head, answers, ActionView::ReadBody { limit }) ==> limit == MAX_BODY_BYTES,
        (answers.body matches Some(body) ==> body.len() > MAX_BODY_BYTES)
            && !(required is PublicBootstrap) && (rate_limited(required)
            ==> answers.token_spent) ==> verdict(required, head, answers) == Err::<
            AuthContextView,
            RejectionView,
        >(refusal(Status::PayloadTooLarge, "request body too large"@)),
{
    whole_run(required, head, answers);
}

/// Disabling a user takes effect on the very next request, whatever token is
/// outstanding.
pub proof fn disabled_users_are_refused(role: Role, head: RequestHeadView, answers: Answers)
    requires
        answers.user matches Some(user) ==> !user.active,
    ensures
        verdict(RequiredAuth::Role(role), head, answers) is Err,
{
}

} // verus!
