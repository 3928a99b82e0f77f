//! What the endpoints guarantee, whatever the components behind them reply.

use vstd::prelude::*;

use crate::auth::AuthContextView;
use crate::config::{ConfigDocument, PluginManifest};
use crate::handlers::{
    actor, config_record, ended_session, login_failure, login_record, new_session, Authentication,
    ConfigCheck, ConfigRead,
};
use crate::operations::{
    awaits, beginning, deletions, following, Call, Move, Outcome, ProgressView, StepView,
};
use crate::outside::base64_url_text;
use crate::reply::{success_answer, AnswerView, BodyView, DecisionView};
use crate::session::{token_text, SessionPayloadView};
use crate::state::SESSION_TTL_SECS;
use crate::users::UserView;

verus! {

/// Where a call stands after these outcomes.
pub open spec fn after(call: Call, context: AuthContextView, outcomes: Seq<Outcome>) -> Move
    decreases outcomes.len(),
{
    if outcomes.len() == 0 {
        beginning(call, context)
    } else {
        following(after(call, context, outcomes.drop_last()).progress, outcomes.last())
    }
}

/// Whether each outcome is one of the step that was asked for.
pub open spec fn in_turn(call: Call, context: AuthContextView, outcomes: Seq<Outcome>) -> bool
    decreases outcomes.len(),
{
    outcomes.len() > 0 ==> in_turn(call, context, outcomes.drop_last()) && awaits(
        after(call, context, outcomes.drop_last()).progress,
        outcomes.last(),
    )
}

/// Whether an answer has the shape of its status: an error message exactly
/// with an error status.
pub open spec fn well_shaped(answer: AnswerView) -> bool {
    answer.body is Error <==> answer.status.spec_code() >= 400
}

/// The user whom the directory accepted, once there was a slot for the check.
pub open spec fn accepted_user(outcomes: Seq<Outcome>) -> Option<UserView> {
    if outcomes.len() < 2 {
        None
    } else {
        match outcomes[1] {
            Outcome::Authenticated { outcome: Authentication::Accepted { user } } => Some(user@),
            _ => None,
        }
    }
}

/// The session that a login's outcomes open.
pub open spec fn opened_session(outcomes: Seq<Outcome>) -> Option<SessionPayloadView> {
    if outcomes.len() < 4 {
        None
    } else {
        match (accepted_user(outcomes), outcomes[2], outcomes[3]) {
            (Some(user), Outcome::Random { bytes }, Outcome::Clock { now }) => if now
                + SESSION_TTL_SECS <= i64::MAX {
                Some(new_session(user, base64_url_text(bytes@), now))
            } else {
                None
            },
            _ => None,
        }
    }
}

/// The token that a login's outcomes make.
pub open spec fn minted_token(outcomes: Seq<Outcome>) -> Option<Seq<char>> {
    if outcomes.len() < 6 {
        None
    } else {
        match (outcomes[4], outcomes[5]) {
            (Outcome::Encoded { payload_json }, Outcome::Stamped { stamp }) => Some(
                token_text(payload_json@, stamp.0@),
            ),
            _ => None,
        }
    }
}

/// Whether an answer hands out the session of a login with these outcomes.
pub open spec fn hands_out(outcomes: Seq<Outcome>, answer: AnswerView) -> bool {
    opened_session(outcomes) matches Some(session) && (minted_token(outcomes) matches Some(token)
        && answer.body == (BodyView::Session { token, exp_unix: session.exp_unix }))
}

/// Whether the revocation of the identity's session was written.
pub open spec fn revocation_written(context: AuthContextView, outcomes: Seq<Outcome>) -> bool {
    &&& ended_session(context) is Ok
    &&& outcomes.len() >= 3
    &&& outcomes[0] is Clock
    &&& outcomes[1] is Revocations
    &&& outcomes[2] == (Outcome::Accepted { accepted: true })
}

/// Whether a submitted configuration passed both checks.
pub open spec fn config_passed(outcomes: Seq<Outcome>) -> bool {
    &&& outcomes.len() >= 2
    &&& outcomes[0] == (Outcome::Checked { refusal: None })
    &&& outcomes[1] == (Outcome::Checked { refusal: None })
}

/// What a finished call's answer says of the outcomes.
spec fn finished_by(
    call: Call,
    context: AuthContextView,
    outcomes: Seq<Outcome>,
    answer: AnswerView,
) -> bool {
    &&& well_shaped(answer)
    &&& answer.body is Session ==> call is Login && outcomes.len() == 7 && hands_out(
        outcomes,
        answer,
    )
    &&& answer.body is Acknowledged && call is Logout ==> outcomes.len() == 4
        && revocation_written(context, outcomes)
    &&& answer.body is Acknowledged && call is PutConfig ==> outcomes.len() == 3 && config_passed(
        outcomes,
    ) && outcomes[2] == (Outcome::Accepted { accepted: true })
}

/// What a call's standing says of the outcomes that led there.
spec fn traced(
    call: Call,
    context: AuthContextView,
    outcomes: Seq<Outcome>,
    progress: ProgressView,
) -> bool {
    let len = outcomes.len();
    match progress {
        ProgressView::Enrolling => len == 0 && call is Enroll,
        ProgressView::TakingSlot { .. } => len == 0 && call is Login,
        ProgressView::Authenticating => len == 1 && call is Login,
        ProgressView::DrawingNonce { user } => len == 2 && call is Login && accepted_user(outcomes)
            == Some(user),
        ProgressView::TimingSession { user, nonce } => len == 3 && call is Login && accepted_user(
            outcomes,
        ) == Some(user) && (outcomes[2] matches Outcome::Random { bytes } && nonce
            == base64_url_text(bytes@)),
        ProgressView::EncodingSession { user_id, exp_unix } => len == 4 && call is Login && (
        opened_session(outcomes) matches Some(session) && user_id == session.user_id && exp_unix
            == session.exp_unix),
        ProgressView::StampingSession { user_id, exp_unix, payload_json } => len == 5
            && call is Login && (opened_session(outcomes) matches Some(session) && user_id
            == session.user_id && exp_unix == session.exp_unix) && (
        outcomes[4] matches Outcome::Encoded { payload_json: json } && payload_json == json@),
        ProgressView::Recording { answer } => well_shaped(answer) && !(answer.body is Acknowledged)
            && (answer.body is Session ==> len == 6 && call is Login && hands_out(outcomes, answer))
            && len <= 6,
        ProgressView::TimingRevocation { session } => len == 0 && call is Logout && ended_session(
            context,
        ) == Ok::<_, AnswerView>(session),
        ProgressView::ListingRevocations { session, now } => len == 1 && call is Logout
            && ended_session(context) == Ok::<_, AnswerView>(session) && outcomes[0]
            == (Outcome::Clock { now }),
        ProgressView::StoringRevocation { .. } => len == 2 && call is Logout && ended_session(
            context,
        ) is Ok && outcomes[0] is Clock && outcomes[1] is Revocations,
        ProgressView::InvalidatingStamp => len == 3 && call is Logout && revocation_written(
            context,
            outcomes,
        ),
        ProgressView::ListingBoard => len == 0 && call is Board,
        ProgressView::FetchingTask => len == 0 && call is GetTask,
        ProgressView::CreatingTask => len == 0 && call is CreateTask,
        ProgressView::TransitioningTask => len == 0 && call is TransitionTask,
        ProgressView::ClaimingTask => len == 0 && call is ClaimTask,
        ProgressView::BlockingTask => len == 0 && call is BlockTask,
        ProgressView::RenderingConfig => len == 0 && call is GetConfig,
        ProgressView::ParsingConfig => len == 0 && call is PutConfig,
        ProgressView::ValidatingConfig => len == 1 && call is PutConfig && outcomes[0]
            == (Outcome::Checked { refusal: None }),
        ProgressView::SavingConfig => len == 2 && call is PutConfig && config_passed(outcomes),
        ProgressView::ReadingPlugins => len == 0 && call is Plugins,
        ProgressView::ReadingLogs => len == 0 && call is Logs,
        ProgressView::ReadingAudit => len == 0 && call is Audit,
        ProgressView::Finished => len <= 7,
    }
}

proof fn opening_is_traced(call: Call, context: AuthContextView)
    ensures
        ({
            let first = beginning(call, context);
            &&& traced(call, context, Seq::empty(), first.progress)
            &&& first.progress is Finished <==> first.step is Answer
            &&& first.step matches StepView::Answer { answer } ==> finished_by(
                call,
                context,
                Seq::empty(),
                answer,
            )
        }),
{
}

#[verifier::spinoff_prover]
proof fn following_is_traced(
    call: Call,
    context: AuthContextView,
    outcomes: Seq<Outcome>,
    progress: ProgressView,
    outcome: Outcome,
)
    requires
        traced(call, context, outcomes, progress),
        awaits(progress, outcome),
    ensures
        ({
            let next = following(progress, outcome);
            &&& traced(call, context, outcomes.push(outcome), next.progress)
            &&& next.progress is Finished <==> next.step is Answer
            &&& next.step matches StepView::Answer { answer } ==> finished_by(
                call,
                context,
                outcomes.push(outcome),
                answer,
            )
        }),
{
    let all = outcomes.push(outcome);
    assert(forall|i: int| 0 <= i < outcomes.len() ==> all[i] == outcomes[i]);
    assert(all[outcomes.len() as int] == outcome);
}

proof fn always_traced(call: Call, context: AuthContextView, outcomes: Seq<Outcome>)
    requires
        in_turn(call, context, outcomes),
    ensures
        ({
            let now = after(call, context, outcomes);
            &&& traced(call, context, outcomes, now.progress)
            &&& now.progress is Finished <==> now.step is Answer
            &&& now.step matches StepView::Answer { answer } ==> finished_by(
                call,
                context,
                outcomes,
                answer,
            )
        }),
    decreases outcomes.len(),
{
    if outcomes.len() == 0 {
        assert(outcomes =~= Seq::<Outcome>::empty());
        opening_is_traced(call, context);
    } else {
        let earlier = outcomes.drop_last();
        always_traced(call, context, earlier);
        following_is_traced(
            call,
            context,
            earlier,
            after(call, context, earlier).progress,
            outcomes.last(),
        );
        assert(earlier.push(outcomes.last()) =~= outcomes);
    }
}

/// Every call is answered, after seven steps at most, and a call asks for
/// nothing once it is answered.
pub proof fn every_call_is_answered(
    call: Call,
    context: AuthContextView,
    outcomes: Seq<Outcome>,
    more: Outcome,
)
    requires
        in_turn(call, context, outcomes),
    ensures
        outcomes.len() <= 7,
        outcomes.len() == 7 ==> after(call, context, outcomes).step is Answer,
        after(call, context, outcomes).step is Answer ==> !in_turn(
            call,
            context,
            outcomes.push(more),
        ),
{
    always_traced(call, context, outcomes);
    assert(outcomes.push(more).drop_last() =~= outcomes);
}

/// Every answer has the shape of its status: an error message exactly with an
/// error status.
pub proof fn answers_are_well_shaped(
    call: Call,
    context: AuthContextView,
    outcomes: Seq<Outcome>,
    answer: AnswerView,
)
    requires
        in_turn(call, context, outcomes),
        after(call, context, outcomes).step == (StepView::Answer { answer }),
    ensures
        well_shaped(answer),
{
    always_traced(call, context, outcomes);
}

/// A session is handed out by a login alone, and only once the directory has
/// accepted the credentials: it is the accepted user's, under the token that
/// frames the encoded payload and its stamp, and it expires half an hour after
/// the time that was read.
pub proof fn sessions_go_to_accepted_users(
    call: Call,
    context: AuthContextView,
    outcomes: Seq<Outcome>,
    answer: AnswerView,
)
    requires
        in_turn(call, context, outcomes),
        after(call, context, outcomes).step == (StepView::Answer { answer }),
        answer.body is Session,
    ensures
        call is Login,
        accepted_user(outcomes) is Some,
        hands_out(outcomes, answer),
        after(call, context, outcomes.take(4)).step == (StepView::EncodePayload {
            payload: opened_session(outcomes)->0,
        }),
{
    always_traced(call, context, outcomes);
    let first = outcomes.take(1);
    let second = outcomes.take(2);
    let third = outcomes.take(3);
    let fourth = outcomes.take(4);
    assert(fourth.drop_last() =~= third && third.drop_last() =~= second);
    assert(second.drop_last() =~= first && first.drop_last() =~= Seq::<Outcome>::empty());
    assert(after(call, context, Seq::empty()) == beginning(call, context));
    assert(first.last() == outcomes[0] && second.last() == outcomes[1] && third.last()
        == outcomes[2] && fourth.last() == outcomes[3]);
    first_outcome_is_awaited(call, context, outcomes);
    assert(after(call, context, first).progress is Authenticating);
    assert(after(call, context, second).progress == (ProgressView::DrawingNonce {
        user: accepted_user(outcomes)->0,
    }));
    assert(after(call, context, third).progress is TimingSession);
}

proof fn first_outcome_is_awaited(call: Call, context: AuthContextView, outcomes: Seq<Outcome>)
    requires
        in_turn(call, context, outcomes),
        outcomes.len() > 0,
    ensures
        awaits(beginning(call, context).progress, outcomes[0]),
    decreases outcomes.len(),
{
    let earlier = outcomes.drop_last();
    if earlier.len() > 0 {
        first_outcome_is_awaited(call, context, earlier);
        assert(earlier[0] == outcomes[0]);
    } else {
        assert(earlier =~= Seq::<Outcome>::empty());
    }
}

/// A password is checked only by a login, and only once it has one of the
/// slots that cap how many such checks run at once.
pub proof fn password_checks_wait_for_a_slot(
    call: Call,
    context: AuthContextView,
    outcomes: Seq<Outcome>,
)
    requires
        in_turn(call, context, outcomes),
        after(call, context, outcomes).step is Authenticate,
    ensures
        call is Login,
        outcomes.len() == 1,
        outcomes[0] is Done,
        beginning(call, context).step is TakeSlot,
{
    always_traced(call, context, outcomes);
    step_fits(call, context, outcomes);
    first_outcome_is_awaited(call, context, outcomes);
}

/// A plugin listing holds every configured plugin, in the order of the
/// configuration, with its name, version, class, flag and capabilities.
pub proof fn plugin_listing_is_the_configuration(
    context: AuthContextView,
    configured: Vec<PluginManifest>,
)
    ensures
        in_turn(
            Call::Plugins,
            context,
            seq![Outcome::PluginsRead { plugins: Some(configured) }],
        ),
        after(
            Call::Plugins,
            context,
            seq![Outcome::PluginsRead { plugins: Some(configured) }],
        ).step matches StepView::Answer { answer } && answer.status.spec_code() == 200 && (
        answer.body matches BodyView::Plugins { plugins } && plugins.len() == configured@.len()
            && forall|i: int|
            0 <= i < plugins.len() ==> #[trigger] plugins[i] == configured@[i]@),
{
    let outcomes = seq![Outcome::PluginsRead { plugins: Some(configured) }];
    assert(outcomes.drop_last() =~= Seq::<Outcome>::empty());
    assert(after(Call::Plugins, context, Seq::empty()) == beginning(Call::Plugins, context));
    assert(in_turn(Call::Plugins, context, Seq::empty()));
}

/// A configuration is shown as it was read: its text and its security part.
pub proof fn config_is_shown_as_read(context: AuthContextView, config: ConfigDocument)
    ensures
        in_turn(
            Call::GetConfig,
            context,
            seq![Outcome::ConfigRead { read: ConfigRead::Rendered { config } }],
        ),
        after(
            Call::GetConfig,
            context,
            seq![Outcome::ConfigRead { read: ConfigRead::Rendered { config } }],
        ).step == (StepView::Answer {
            answer: success_answer(BodyView::Config { config: config@ }),
        }),
{
    let outcomes = seq![Outcome::ConfigRead { read: ConfigRead::Rendered { config } }];
    assert(outcomes.drop_last() =~= Seq::<Outcome>::empty());
    assert(after(Call::GetConfig, context, Seq::empty()) == beginning(Call::GetConfig, context));
    assert(in_turn(Call::GetConfig, context, Seq::empty()));
}

/// A logout is acknowledged only once the revocation of the session is
/// written: exactly the nonce of the identity's session, until exactly its
/// expiry, with nothing deleted but records that had expired by the time read.
pub proof fn logout_is_acknowledged_once_revoked(
    context: AuthContextView,
    outcomes: Seq<Outcome>,
    answer: AnswerView,
)
    requires
        in_turn(Call::Logout, context, outcomes),
        after(Call::Logout, context, outcomes).step == (StepView::Answer { answer }),
        answer.body is Acknowledged,
    ensures
        revocation_written(context, outcomes),
        context.session matches Some(session) && (outcomes[0] matches Outcome::Clock { now } && (
        outcomes[1] matches Outcome::Revocations { records } && after(
            Call::Logout,
            context,
            outcomes.take(2),
        ).step == (StepView::Revoke {
            delete: deletions(records, now),
            nonce: session.nonce,
            exp_unix: Some(session.exp_unix),
        }))),
        context.session_bytes matches Some(payload_bytes) && after(
            Call::Logout,
            context,
            outcomes.take(3),
        ).step == (StepView::InvalidateStamp { payload_bytes }),
{
    always_traced(Call::Logout, context, outcomes);
    let first = outcomes.take(1);
    let second = outcomes.take(2);
    let third = outcomes.take(3);
    assert(third.drop_last() =~= second && second.drop_last() =~= first);
    assert(first.drop_last() =~= Seq::<Outcome>::empty());
    assert(after(Call::Logout, context, Seq::empty()) == beginning(Call::Logout, context));
    assert(first.last() == outcomes[0] && second.last() == outcomes[1] && third.last()
        == outcomes[2]);
    assert(after(Call::Logout, context, first).progress is ListingRevocations);
    assert(after(Call::Logout, context, second).progress is StoringRevocation);
}

/// A configuration is saved only if it was submitted, and both its parse and
/// its validation passed.
pub proof fn config_is_checked_before_it_is_saved(
    call: Call,
    context: AuthContextView,
    outcomes: Seq<Outcome>,
)
    requires
        in_turn(call, context, outcomes),
        after(call, context, outcomes).step is SaveConfig,
    ensures
        call is PutConfig,
        outcomes.len() == 2,
        config_passed(outcomes),
{
    always_traced(call, context, outcomes);
    step_fits(call, context, outcomes);
}

/// Whoever acts on the board is the verified user: no body names the actor.
pub proof fn actors_are_the_verified_user(
    call: Call,
    context: AuthContextView,
    outcomes: Seq<Outcome>,
)
    requires
        in_turn(call, context, outcomes),
    ensures
        match after(call, context, outcomes).step {
            StepView::CreateTask { task } => task.actor == actor(context),
            StepView::TransitionTask { transition, .. } => transition.actor == actor(context),
            StepView::ClaimTask { actor: claimer, .. } => claimer == actor(context),
            StepView::BlockTask { block, .. } => block.actor == actor(context) && block.blocked_by
                == actor(context),
            _ => true,
        },
{
    if outcomes.len() > 0 {
        following_asks(after(call, context, outcomes.drop_last()).progress, outcomes.last());
    }
}

/// What can be asked for after the first step.
proof fn following_asks(progress: ProgressView, outcome: Outcome)
    ensures
        !(following(progress, outcome).step is CreateTask),
        !(following(progress, outcome).step is TransitionTask),
        !(following(progress, outcome).step is ClaimTask),
        !(following(progress, outcome).step is BlockTask),
        following(progress, outcome).step is SaveConfig ==> following(
            progress,
            outcome,
        ).progress is SavingConfig,
        following(progress, outcome).step is Authenticate ==> following(
            progress,
            outcome,
        ).progress is Authenticating,
{
}

proof fn step_fits(call: Call, context: AuthContextView, outcomes: Seq<Outcome>)
    ensures
        after(call, context, outcomes).step is SaveConfig ==> after(
            call,
            context,
            outcomes,
        ).progress is SavingConfig,
        after(call, context, outcomes).step is Authenticate ==> after(
            call,
            context,
            outcomes,
        ).progress is Authenticating,
{
    if outcomes.len() > 0 {
        following_asks(after(call, context, outcomes.drop_last()).progress, outcomes.last());
    }
}

/// What the audit chain is told holds no secret: of a login at most the
/// accepted user's id, of a refused configuration the loader's detail, and of
/// other calls nothing.
pub proof fn records_name_public_identifiers(
    call: Call,
    context: AuthContextView,
    outcomes: Seq<Outcome>,
    decision: DecisionView,
)
    requires
        in_turn(call, context, outcomes),
        after(call, context, outcomes).step == (StepView::Record { decision }),
    ensures
        match call {
            Call::Login { .. } => match accepted_user(outcomes) {
                Some(user) => decision == login_record(user.id),
                None => decision == login_failure(),
            },
            Call::PutConfig { .. } => exists|check: ConfigCheck, detail: Seq<char>|
                decision == #[trigger] config_record(check, detail),
            _ => false,
        },
{
    assert(outcomes.len() > 0);
    let earlier = outcomes.drop_last();
    always_traced(call, context, earlier);
    let progress = after(call, context, earlier).progress;
    following_records(progress, outcomes.last());
    if earlier.len() > 1 {
        assert(earlier[1] == outcomes[1]);
    }
}

/// What can be recorded, and where.
proof fn following_records(progress: ProgressView, outcome: Outcome)
    ensures
        following(progress, outcome).step matches StepView::Record { decision } ==> match progress {
            ProgressView::Authenticating => decision == login_failure() && (
            outcome matches Outcome::Authenticated { outcome } && outcome is Refused),
            ProgressView::StampingSession { user_id, .. } => decision == login_record(user_id),
            ProgressView::ParsingConfig => outcome matches Outcome::Checked { refusal } && decision
                == config_record(ConfigCheck::Parse, refusal->0@),
            ProgressView::ValidatingConfig => outcome matches Outcome::Checked { refusal }
                && decision == config_record(ConfigCheck::Validation, refusal->0@),
            _ => false,
        },
{
}

} // verus!
