//! Limits, the clock, and the durable session-revocation denylist.
//!
//! Loopback binding is not an authentication boundary: every endpoint except
//! enrollment is gated by a client signature, and every endpoint except
//! enrollment and login by a verified user session.

use std::time::{Duration, SystemTime};

use vstd::prelude::*;
use vstd::string::*;

use crate::limiter::{
    end_time, grants, grants_are_bounded_by_the_refill, in_order, touched_by, Bucket, Call, Limits,
    NANOTOKEN,
};

pub use crate::limiter::RateLimiter;

verus! {

/// Collection holding revoked session nonces.
pub const REVOKED_SESSIONS: &'static str = "revoked_sessions";

/// Indexed field used to prune expired revocation records.
pub const REVOKED_EXP_FIELD: &'static str = "exp_unix";

/// Maximum request body size accepted by the API: 64 KiB.
pub const MAX_BODY_BYTES: usize = 65536;

/// Session lifetime in seconds: 30 minutes.
pub const SESSION_TTL_SECS: i64 = 1800;

/// Burst of the login and enrollment limiter, in nanotokens: five tokens.
pub const RATE_CAPACITY: u64 = 5_000_000_000;

/// Refill of the login and enrollment limiter, in nanotokens per second: one
/// token.
pub const RATE_REFILL_PER_SEC: u64 = 1_000_000_000;

/// What a limiter with that burst and that refill counts with.
pub open spec fn rate_limits() -> Limits {
    Limits {
        capacity: (RATE_CAPACITY * NANOTOKEN) as u128,
        refill_per_nano: RATE_REFILL_PER_SEC,
    }
}

/// Under these limits a peer logs in or enrolls at most five times, and once
/// more for every second that passes.
pub proof fn five_and_one_per_second(
    buckets: Map<Seq<char>, Bucket>,
    calls: Seq<Call>,
    peer: Seq<char>,
    start: u64,
)
    requires
        touched_by(buckets, start),
        in_order(calls, start),
    ensures
        grants(buckets, rate_limits(), calls, peer) <= 5 + (end_time(calls, start) - start)
            / 1_000_000_000,
{
    grants_are_bounded_by_the_refill(buckets, rate_limits(), calls, peer, start);
}

/// Result of a denylist lookup. `Unknown` must be treated as a denial.
#[derive(Debug, Clone, Copy, PartialEq, Eq, Structural)]
pub enum RevocationStatus {
    Revoked,
    NotRevoked,
    Unknown,
}

// ---------------------------------------------------------------------------
// Clock
// ---------------------------------------------------------------------------

/// `std::time::SystemTime`, carried from reading the clock to asking how far
/// the reading is from the epoch.
#[verifier::external_type_specification]
#[verifier::external_body]
pub struct ExSystemTime(std::time::SystemTime);

/// `SystemTime::now`: a reading of the system clock, of which nothing is
/// promised.
pub assume_specification[ std::time::SystemTime::now ]() -> (reading: std::time::SystemTime)
;

/// `Duration::as_secs`: the whole seconds of a duration. They come from the
/// clock, so nothing is promised of them.
pub assume_specification[ std::time::Duration::as_secs ](duration: &std::time::Duration) -> (secs:
    u64)
;

/// `SystemTime::duration_since` the Unix epoch, `None` where it reports that
/// the reading is before the epoch. The result comes from the clock, so
/// nothing is promised of it.
#[verifier::external_body]
fn since_epoch(reading: &SystemTime) -> (since: Option<Duration>) {
    reading.duration_since(std::time::UNIX_EPOCH).ok()
}

/// Seconds since the epoch as a signed value.
pub open spec fn signed_seconds(seconds: u64) -> i64 {
    if seconds <= i64::MAX {
        seconds as i64
    } else {
        (seconds - 0x1_0000_0000_0000_0000) as i64
    }
}

/// The Unix time of a clock reading; none for a clock set before the epoch.
pub open spec fn unix_time(seconds: Option<u64>) -> Option<i64> {
    match seconds {
        Some(seconds) => Some(signed_seconds(seconds)),
        None => None,
    }
}

/// The Unix time, with zero standing for a clock set before the epoch.
pub open spec fn time_or_zero(now: Option<i64>) -> i64 {
    match now {
        Some(now) => now,
        None => 0,
    }
}

/// The Unix time of a clock reading given in whole seconds since the epoch.
pub fn unix_seconds(seconds: Option<u64>) -> (now: Option<i64>)
    ensures
        now == unix_time(seconds),
{
    match seconds {
        Some(seconds) => {
            assert(seconds > i64::MAX ==> (seconds as i64) == seconds - 0x1_0000_0000_0000_0000)
                by (bit_vector);
            Some(seconds as i64)
        },
        None => None,
    }
}

/// The time for uses that do not gate on freshness.
pub fn seconds_or_zero(now: Option<i64>) -> (seconds: i64)
    ensures
        seconds == time_or_zero(now),
{
    match now {
        Some(now) => now,
        None => 0,
    }
}

/// Two times of one clock reading agree: a reading that a signed value can hold
/// is the time, by either function, and it is not negative; a clock set before
/// the epoch has no time by the one, and zero by the other.
pub proof fn one_reading_is_one_time(seconds: Option<u64>)
    requires
        seconds matches Some(seconds) ==> seconds <= i64::MAX,
    ensures
        seconds matches Some(seconds) ==> unix_time(Some(seconds)) == Some(seconds as i64)
            && time_or_zero(unix_time(Some(seconds))) == seconds,
        seconds is None ==> unix_time(seconds) is None && time_or_zero(unix_time(seconds)) == 0,
        time_or_zero(unix_time(seconds)) >= 0,
        unix_time(seconds) matches Some(now) ==> time_or_zero(unix_time(seconds)) == now,
{
}

/// Current Unix-seconds time, or `None` if the system clock is set before the
/// Unix epoch. Security gates must treat `None` as a failure. Which reading the
/// clock gives is left unsaid.
pub fn now_unix_checked() -> (now: Option<i64>)
    ensures
        exists|seconds: Option<u64>| now == #[trigger] unix_time(seconds),
{
    let seconds: Option<u64> = match since_epoch(&SystemTime::now()) {
        Some(since) => Some(since.as_secs()),
        None => None,
    };
    unix_seconds(seconds)
}

/// Current Unix-seconds time for uses that do not gate on freshness (expiry of
/// new sessions, pruning). Zero on a clock set before the epoch. Which reading
/// the clock gives is left unsaid.
pub fn now_unix() -> (now: i64)
    ensures
        exists|seconds: Option<u64>| now == time_or_zero(#[trigger] unix_time(seconds)),
{
    seconds_or_zero(now_unix_checked())
}

// ---------------------------------------------------------------------------
// Revocation denylist
// ---------------------------------------------------------------------------

/// What the store answered to a lookup by id.
#[derive(Debug, Clone, Copy, PartialEq, Eq, Structural)]
pub enum StoreLookup {
    Found,
    NotFound,
    Failed,
}

/// A collection that the store must hold.
#[derive(Debug)]
pub struct CollectionSpec {
    pub name: String,
    pub indexed_fields: Vec<String>,
}

/// A denylist record: the nonce is its id. `exp_unix` is absent where the
/// stored document has no such number.
#[derive(Debug)]
pub struct RevocationRecord {
    pub id: String,
    pub exp_unix: Option<i64>,
}

/// What a logout does to the denylist: the ids to delete, best effort, and the
/// record to put.
#[derive(Debug)]
pub struct RevocationPlan {
    pub delete: Vec<String>,
    pub put: RevocationRecord,
}

/// The collection that holds the denylist, indexed by expiry.
pub fn ensure_collections() -> (collection: CollectionSpec)
    ensures
        collection.name@ == REVOKED_SESSIONS@,
        collection.indexed_fields@.len() == 1,
        collection.indexed_fields@[0]@ == REVOKED_EXP_FIELD@,
{
    let mut indexed_fields: Vec<String> = Vec::new();
    indexed_fields.push(REVOKED_EXP_FIELD.to_owned());
    CollectionSpec { name: REVOKED_SESSIONS.to_owned(), indexed_fields }
}

/// The status that a store lookup of a nonce means: only a definite "not
/// found" is "not revoked".
pub open spec fn status_of(lookup: StoreLookup) -> RevocationStatus {
    match lookup {
        StoreLookup::Found => RevocationStatus::Revoked,
        StoreLookup::NotFound => RevocationStatus::NotRevoked,
        StoreLookup::Failed => RevocationStatus::Unknown,
    }
}

/// Reads a denylist lookup, failing closed on an uncertain one.
pub fn revocation_status(lookup: StoreLookup) -> (status: RevocationStatus)
    ensures
        status == status_of(lookup),
{
    match lookup {
        StoreLookup::Found => RevocationStatus::Revoked,
        StoreLookup::NotFound => RevocationStatus::NotRevoked,
        StoreLookup::Failed => RevocationStatus::Unknown,
    }
}

/// Whether a record covers a token that has expired by `now`. A record without
/// an expiry never does.
pub open spec fn prunable(exp_unix: Option<i64>, now: i64) -> bool {
    exp_unix matches Some(exp) && exp < now
}

/// The ids of the records that can be pruned, in order.
pub open spec fn prunable_ids(records: Seq<RevocationRecord>, now: i64) -> Seq<Seq<char>>
    decreases records.len(),
{
    if records.len() == 0 {
        Seq::empty()
    } else {
        let earlier = prunable_ids(records.drop_last(), now);
        if prunable(records.last().exp_unix, now) {
            earlier.push(records.last().id@)
        } else {
            earlier
        }
    }
}

/// Picks the records whose covered token has already expired.
pub fn prune_revocations(records: &Vec<RevocationRecord>, now: i64) -> (delete: Vec<String>)
    ensures
        delete@.map_values(|id: String| id@) == prunable_ids(records@, now),
{
    let ghost views = |id: String| id@;
    let mut delete: Vec<String> = Vec::new();
    let mut i: usize = 0;
    assert(delete@.map_values(views) =~= prunable_ids(records@.take(0), now));
    while i < records.len()
        invariant
            i <= records@.len(),
            views == (|id: String| id@),
            delete@.map_values(views) == prunable_ids(records@.take(i as int), now),
        decreases records@.len() - i,
    {
        assert(records@.take(i + 1).drop_last() =~= records@.take(i as int));
        let expired = match records[i].exp_unix {
            Some(exp) => exp < now,
            None => false,
        };
        if expired {
            let ghost before = delete@;
            delete.push(records[i].id.clone());
            assert(delete@.map_values(views) =~= before.map_values(views).push(
                records@[i as int].id@,
            ));
        }
        i += 1;
    }
    assert(records@.take(i as int) =~= records@);
    delete
}

/// Plans the revocation of `nonce` until `exp_unix`, given the records the
/// store listed (`None` if it could not list them).
pub fn revoke(
    nonce: &str,
    exp_unix: i64,
    records: Option<&Vec<RevocationRecord>>,
    now: i64,
) -> (plan: RevocationPlan)
    ensures
        plan.put.id@ == nonce@,
        plan.put.exp_unix == Some(exp_unix),
        plan.delete@.map_values(|id: String| id@) == (match records {
            Some(records) => prunable_ids(records@, now),
            None => Seq::<Seq<char>>::empty(),
        }),
{
    let delete: Vec<String> = match records {
        Some(records) => prune_revocations(records, now),
        None => Vec::new(),
    };
    assert(records is None ==> delete@.map_values(|id: String| id@) =~= Seq::<Seq<char>>::empty());
    RevocationPlan {
        delete,
        put: RevocationRecord { id: nonce.to_owned(), exp_unix: Some(exp_unix) },
    }
}

/// Only ids of prunable records are ever deleted.
pub proof fn only_expired_are_deleted(records: Seq<RevocationRecord>, now: i64, id: Seq<char>)
    ensures
        prunable_ids(records, now).contains(id) <==> exists|i: int|
            0 <= i < records.len() && (#[trigger] records[i]).id@ == id && prunable(
                records[i].exp_unix,
                now,
            ),
    decreases records.len(),
{
    if records.len() > 0 {
        let earlier = records.drop_last();
        let ids = prunable_ids(earlier, now);
        only_expired_are_deleted(earlier, now, id);
        if exists|i: int|
            0 <= i < records.len() && (#[trigger] records[i]).id@ == id && prunable(
                records[i].exp_unix,
                now,
            ) {
            let i = choose|i: int|
                0 <= i < records.len() && (#[trigger] records[i]).id@ == id && prunable(
                    records[i].exp_unix,
                    now,
                );
            if i < earlier.len() {
                assert(earlier[i].id@ == id);
                assert(ids.contains(id));
                let k = choose|k: int| 0 <= k < ids.len() && ids[k] == id;
                assert(prunable_ids(records, now)[k] == id);
            } else {
                assert(prunable_ids(records, now)[ids.len() as int] == id);
            }
        }
        if prunable_ids(records, now).contains(id) {
            let k = choose|k: int|
                0 <= k < prunable_ids(records, now).len() && prunable_ids(records, now)[k] == id;
            if k < ids.len() {
                assert(ids[k] == id);
                assert(ids.contains(id));
                let i = choose|i: int|
                    0 <= i < earlier.len() && (#[trigger] earlier[i]).id@ == id && prunable(
                        earlier[i].exp_unix,
                        now,
                    );
                assert(records[i].id@ == id);
            } else {
                assert(records[records.len() - 1].id@ == id);
            }
        }
    }
}

/// Only a definite "not found" clears a nonce, only a definite "found" revokes
/// it, and a lookup that failed does neither.
pub proof fn lookups_fail_closed(lookup: StoreLookup)
    ensures
        status_of(lookup) is NotRevoked <==> lookup is NotFound,
        status_of(lookup) is Revoked <==> lookup is Found,
        status_of(lookup) is Unknown <==> lookup is Failed,
{
}

/// A record may be deleted exactly if the expiry that it holds lies before the
/// time; one without an expiry never.
pub proof fn only_past_expiries_are_prunable(exp_unix: Option<i64>, now: i64)
    ensures
        exp_unix matches Some(exp) ==> (prunable(exp_unix, now) <==> exp < now),
        exp_unix is None ==> !prunable(exp_unix, now),
{
}

/// Every record that has expired is deleted, once for each time that it is
/// listed, and no other: as many ids are deleted as expired records are listed.
pub proof fn every_expired_record_is_deleted(
    records: Seq<RevocationRecord>,
    more: Seq<RevocationRecord>,
    now: i64,
)
    ensures
        prunable_ids(records + more, now) == prunable_ids(records, now) + prunable_ids(more, now),
    decreases more.len(),
{
    if more.len() == 0 {
        assert(records + more =~= records);
        assert(prunable_ids(records, now) + prunable_ids(more, now) =~= prunable_ids(records, now));
    } else {
        let earlier = more.drop_last();
        every_expired_record_is_deleted(records, earlier, now);
        assert((records + more).drop_last() =~= records + earlier);
        assert((records + more).last() == more.last());
        assert(prunable_ids(records + more, now) =~= prunable_ids(records, now) + prunable_ids(
            more,
            now,
        ));
    }
}

} // verus!
