//! What the denylist guarantees of sessions that have been logged out.

use vstd::prelude::*;

use crate::auth::{expired, RequestHeadView, RequiredAuth};
use crate::auth_laws::{verdict, Answers};
use crate::state::{
    only_expired_are_deleted, prunable, prunable_ids, status_of, RevocationRecord, StoreLookup,
};
use crate::users::Role;

verus! {

/// One logout: the session it revokes, the records that the store listed for
/// it (`None` if it could not), the time it read, and whether the store wrote
/// its record.
pub struct Logout {
    pub nonce: Seq<char>,
    pub exp_unix: i64,
    pub records: Option<Seq<RevocationRecord>>,
    pub now: i64,
    pub stored: bool,
}

/// The ids that a logout plans to delete.
pub open spec fn planned_deletions(logout: Logout) -> Seq<Seq<char>> {
    match logout.records {
        Some(records) => prunable_ids(records, logout.now),
        None => Seq::empty(),
    }
}

/// Whether every listed record is one that the denylist holds. The denylist
/// maps each nonce to the expiry that is stored with it.
pub open spec fn listed(
    denylist: Map<Seq<char>, Option<i64>>,
    records: Seq<RevocationRecord>,
) -> bool {
    forall|i: int|
        0 <= i < records.len() ==> denylist.contains_key((#[trigger] records[i]).id@)
            && denylist[records[i].id@] == records[i].exp_unix
}

/// Whether a logout wrote the record of this id.
pub open spec fn writes(logout: Logout, id: Seq<char>) -> bool {
    logout.stored && id == logout.nonce
}

/// Whether a logout took the denylist from `before` to `after`: its record is
/// there if it was written, and the rest is as before, but for planned
/// deletions. Each of those may have failed.
pub open spec fn logged_out(
    before: Map<Seq<char>, Option<i64>>,
    after: Map<Seq<char>, Option<i64>>,
    logout: Logout,
) -> bool {
    &&& logout.records matches Some(records) ==> listed(before, records)
    &&& logout.stored ==> after.contains_key(logout.nonce) && after[logout.nonce] == Some(
        logout.exp_unix,
    )
    &&& forall|id: Seq<char>| #[trigger]
        after.contains_key(id) && !writes(logout, id) ==> before.contains_key(id) && after[id]
            == before[id]
    &&& forall|id: Seq<char>| #[trigger]
        before.contains_key(id) && !planned_deletions(logout).contains(id) ==> after.contains_key(
            id,
        )
}

/// A logout never drops a record that still covers a live token, whether or
/// not its own record is written.
pub proof fn live_records_survive(
    before: Map<Seq<char>, Option<i64>>,
    after: Map<Seq<char>, Option<i64>>,
    logout: Logout,
    id: Seq<char>,
)
    requires
        logged_out(before, after, logout),
        before.contains_key(id),
        !prunable(before[id], logout.now),
    ensures
        after.contains_key(id),
        !writes(logout, id) ==> after[id] == before[id],
{
    match logout.records {
        Some(records) => {
            only_expired_are_deleted(records, logout.now, id);
        },
        None => {},
    }
}

/// The denylist stays bounded: a logout whose listing was complete and whose
/// deletions all worked leaves no record of an expired token, but for its own.
pub proof fn expired_records_are_pruned(
    before: Map<Seq<char>, Option<i64>>,
    after: Map<Seq<char>, Option<i64>>,
    logout: Logout,
    id: Seq<char>,
)
    requires
        logged_out(before, after, logout),
        logout.records matches Some(records) && forall|id: Seq<char>| #[trigger]
            before.contains_key(id) ==> exists|i: int|
                0 <= i < records.len() && (#[trigger] records[i]).id@ == id,
        forall|id: Seq<char>| #[trigger]
            planned_deletions(logout).contains(id) && !writes(logout, id) ==> !after.contains_key(
                id,
            ),
        !writes(logout, id),
        after.contains_key(id),
    ensures
        !prunable(after[id], logout.now),
{
    let records = logout.records->0;
    only_expired_are_deleted(records, logout.now, id);
    assert(before.contains_key(id));
    let i = choose|i: int| 0 <= i < records.len() && (#[trigger] records[i]).id@ == id;
    if prunable(after[id], logout.now) {
        assert(records[i].id@ == id && prunable(records[i].exp_unix, logout.now));
        assert(planned_deletions(logout).contains(id));
    }
}

/// Whether the denylist went through `states`, one logout at a time.
pub open spec fn history(states: Seq<Map<Seq<char>, Option<i64>>>, logouts: Seq<Logout>) -> bool {
    &&& states.len() == logouts.len() + 1
    &&& forall|i: int|
        0 <= i < logouts.len() ==> logged_out(states[i], states[i + 1], #[trigger] logouts[i])
}

/// Whether the logouts from `first` up to `last` read times up to `now`, and
/// the records that they wrote for the session of the first one agree on its
/// expiry.
pub open spec fn by_time(logouts: Seq<Logout>, first: int, last: int, now: i64) -> bool {
    forall|i: int|
        first <= i < last ==> (#[trigger] logouts[i]).now <= now && (writes(
            logouts[i],
            logouts[first].nonce,
        ) ==> logouts[i].exp_unix == logouts[first].exp_unix)
}

/// A revocation that was written lasts as long as the token it covers: until
/// the token has expired, no later logout drops its record, be it one that is
/// written or one that prunes and then fails to write.
pub proof fn revocation_outlasts_the_token(
    states: Seq<Map<Seq<char>, Option<i64>>>,
    logouts: Seq<Logout>,
    first: int,
    last: int,
    now: i64,
)
    requires
        history(states, logouts),
        0 <= first < last <= logouts.len(),
        logouts[first].stored,
        by_time(logouts, first, last, now),
        now <= logouts[first].exp_unix,
    ensures
        states[last].contains_key(logouts[first].nonce),
        states[last][logouts[first].nonce] == Some(logouts[first].exp_unix),
    decreases last,
{
    let nonce = logouts[first].nonce;
    let logout = logouts[last - 1];
    assert(logged_out(states[last - 1], states[last - 1 + 1], logout));
    if first < last - 1 {
        revocation_outlasts_the_token(states, logouts, first, last - 1, now);
        live_records_survive(states[last - 1], states[last], logout, nonce);
    }
}

/// A session that has been logged out is never let through again, whatever
/// else is logged out later, written or not, as long as the clock does not run
/// backwards.
pub proof fn logged_out_session_stays_out(
    states: Seq<Map<Seq<char>, Option<i64>>>,
    logouts: Seq<Logout>,
    first: int,
    last: int,
    lookup: StoreLookup,
    role: Role,
    head: RequestHeadView,
    answers: Answers,
)
    requires
        history(states, logouts),
        0 <= first < last <= logouts.len(),
        logouts[first].stored,
        answers.clock matches Some(now) ==> by_time(logouts, first, last, now),
        answers.payload matches Some(payload) && payload.nonce == logouts[first].nonce
            && payload.exp_unix == logouts[first].exp_unix,
        lookup is NotFound ==> !states[last].contains_key(logouts[first].nonce),
        answers.revocation == status_of(lookup),
    ensures
        verdict(RequiredAuth::Role(role), head, answers) is Err,
{
    let exp_unix = logouts[first].exp_unix;
    if !expired(answers.clock, exp_unix) {
        revocation_outlasts_the_token(states, logouts, first, last, answers.clock->0);
    }
}

} // verus!
