//! What a limiter owes to each key: its whole burst, exactly its refill, and a
//! bucket that nobody else spends from.

use vstd::prelude::*;

use crate::limiter::{
    after_calls, after_request, allows, available, grants, tidied, Bucket, Call, Limits,
};
use crate::state::rate_limits;

verus! {

/// A key that has not been seen has the whole burst.
pub proof fn unseen_keys_have_the_whole_burst(
    buckets: Map<Seq<char>, Bucket>,
    limits: Limits,
    key: Seq<char>,
    now: u64,
)
    requires
        !buckets.contains_key(key),
    ensures
        available(buckets, limits, key, now) == limits.capacity,
        allows(buckets, limits, key, now) <==> limits.capacity >= 1_000_000_000_000_000_000,
{
    assert(!tidied(buckets, now).contains_key(key));
}

/// What a key has to spend when a request of it comes in: what its bucket holds
/// by then, or the whole burst if the bucket is one that goes away.
pub open spec fn held(
    buckets: Map<Seq<char>, Bucket>,
    limits: Limits,
    key: Seq<char>,
    now: u64,
) -> int {
    if buckets.len() > 10_000 && now - buckets[key].last >= 3_600_000_000_000 {
        limits.capacity as int
    } else {
        available(buckets, limits, key, now) as int
    }
}

/// A request is allowed exactly if there is a whole token to spend; it costs that
/// one token, and a request that is refused costs nothing. From then on the
/// bucket refills with the time that passes, up to the capacity.
pub proof fn requests_cost_one_token(
    buckets: Map<Seq<char>, Bucket>,
    limits: Limits,
    key: Seq<char>,
    now: u64,
    later: u64,
)
    requires
        now <= later,
    ensures
        ({
            let before = held(buckets, limits, key, now);
            let left = if before >= 1_000_000_000_000_000_000 {
                before - 1_000_000_000_000_000_000
            } else {
                before
            };
            let gained = left + (later - now) * limits.refill_per_nano;
            &&& allows(buckets, limits, key, now) <==> before >= 1_000_000_000_000_000_000
            &&& available(after_request(buckets, limits, key, now), limits, key, later)
                == if gained <= limits.capacity {
                gained
            } else {
                limits.capacity as int
            }
        }),
{
    let kept = tidied(buckets, now);
    assert(available(kept, limits, key, now) == held(buckets, limits, key, now));
}

/// Waiting adds exactly the refill of the time that passed, up to the capacity;
/// a clock that steps back adds nothing.
pub proof fn waiting_adds_exactly_the_refill(
    buckets: Map<Seq<char>, Bucket>,
    limits: Limits,
    key: Seq<char>,
    from: u64,
    to: u64,
)
    requires
        buckets.contains_key(key),
        buckets[key].tokens <= limits.capacity,
    ensures
        buckets[key].last <= from <= to ==> ({
            let gained = available(buckets, limits, key, from) + (to - from)
                * limits.refill_per_nano;
            available(buckets, limits, key, to) == if gained <= limits.capacity {
                gained
            } else {
                limits.capacity as int
            }
        }),
        to <= buckets[key].last ==> available(buckets, limits, key, to) == buckets[key].tokens,
{
    let last = buckets[key].last;
    let rate = limits.refill_per_nano;
    if last <= from <= to {
        assert((to - last) * rate == (from - last) * rate + (to - from) * rate)
            by (nonlinear_arith);
        assert((to - from) * rate >= 0) by (nonlinear_arith)
            requires
                from <= to,
        ;
    }
    if to <= last {
        assert(0nat * rate == 0) by (nonlinear_arith);
    }
}

/// No bucket goes away while there are at most ten thousand; above that, exactly
/// those go that nobody has touched for an hour, and the others stay as they are.
pub proof fn only_idle_buckets_are_evicted(
    buckets: Map<Seq<char>, Bucket>,
    limits: Limits,
    key: Seq<char>,
    other: Seq<char>,
    now: u64,
)
    requires
        key != other,
    ensures
        ({
            let after = after_request(buckets, limits, key, now);
            &&& after.contains_key(key)
            &&& after.contains_key(other) <==> buckets.contains_key(other) && (buckets.len()
                <= 10_000 || now - buckets[other].last < 3_600_000_000_000)
            &&& after.contains_key(other) ==> after[other] == buckets[other]
        }),
{
}

/// A burst is granted in full: a key that nobody has seen is allowed as many
/// requests at once as whole tokens fit the capacity, and no more.
pub proof fn bursts_are_granted_in_full(
    limits: Limits,
    calls: Seq<Call>,
    key: Seq<char>,
    now: u64,
)
    requires
        forall|i: int|
            0 <= i < calls.len() ==> (#[trigger] calls[i]).key == key && calls[i].at == now,
    ensures
        ({
            let burst = limits.capacity as int / 1_000_000_000_000_000_000;
            grants(Map::empty(), limits, calls, key) == if calls.len() <= burst {
                calls.len() as int
            } else {
                burst
            }
        }),
{
    burst_so_far(limits, calls, key, now);
}

proof fn burst_so_far(limits: Limits, calls: Seq<Call>, key: Seq<char>, now: u64)
    requires
        forall|i: int|
            0 <= i < calls.len() ==> (#[trigger] calls[i]).key == key && calls[i].at == now,
    ensures
        ({
            let burst = limits.capacity as int / 1_000_000_000_000_000_000;
            let granted = grants(Map::empty(), limits, calls, key);
            let buckets = after_calls(Map::empty(), limits, calls);
            &&& granted == if calls.len() <= burst {
                calls.len() as int
            } else {
                burst
            }
            &&& buckets.dom().finite()
            &&& buckets.len() <= 1
            &&& forall|other: Seq<char>| #[trigger] buckets.contains_key(other) ==> other == key
            &&& available(buckets, limits, key, now) == limits.capacity - granted
                * 1_000_000_000_000_000_000
        }),
    decreases calls.len(),
{
    let burst = limits.capacity as int / 1_000_000_000_000_000_000;
    let none = Map::<Seq<char>, Bucket>::empty();
    if calls.len() > 0 {
        let earlier = calls.drop_last();
        assert forall|i: int| 0 <= i < earlier.len() implies (#[trigger] earlier[i]).key == key
            && earlier[i].at == now by {
            assert(earlier[i] == calls[i]);
        }
        burst_so_far(limits, earlier, key, now);
        let before = after_calls(none, limits, earlier);
        assert(calls[calls.len() - 1].key == key && calls[calls.len() - 1].at == now);
        requests_cost_one_token(before, limits, key, now, now);
        assert((now - now) * limits.refill_per_nano == 0) by (nonlinear_arith);
        let after = after_request(before, limits, key, now);
        assert(after.dom() =~= set![key]);
        assert(after.dom().len() == 1);
    } else {
        assert(none.dom().len() == 0);
    }
}

/// The limiter of login and enrollment grants bursts of five, and one more for
/// each second.
pub proof fn login_bursts_are_five(calls: Seq<Call>, key: Seq<char>, now: u64)
    requires
        forall|i: int|
            0 <= i < calls.len() ==> (#[trigger] calls[i]).key == key && calls[i].at == now,
    ensures
        grants(Map::empty(), rate_limits(), calls, key) == if calls.len() <= 5 {
            calls.len() as int
        } else {
            5
        },
        1_000_000_000 * rate_limits().refill_per_nano == 1_000_000_000_000_000_000,
{
    bursts_are_granted_in_full(rate_limits(), calls, key, now);
}

} // verus!
