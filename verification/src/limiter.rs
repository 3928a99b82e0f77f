//! Per-key token-bucket rate limiter.
//!
//! Amounts are exact: a bucket counts billionths of a billionth of a token, so
//! that any number of nanoseconds at any whole number of nanotokens per second
//! refills it without rounding.

use vstd::prelude::*;
use vstd::string::*;

use crate::text::same_text;

verus! {

/// One token, in the unit that buckets count.
pub const TOKEN: u128 = 1_000_000_000_000_000_000;

/// Units in a nanotoken.
pub const NANOTOKEN: u128 = 1_000_000_000;

/// Above this many buckets, idle ones are evicted.
pub const MAX_BUCKETS: usize = 10_000;

/// A bucket untouched for this long (one hour, in nanoseconds) is idle.
pub const IDLE_NANOS: u64 = 3_600_000_000_000;

/// The state of one key's bucket.
#[derive(Debug, Clone, Copy)]
pub struct Bucket {
    pub tokens: u128,
    pub last: u64,
}

/// The parameters of a limiter, in the unit that buckets count.
#[derive(Debug, Clone, Copy)]
pub struct Limits {
    pub capacity: u128,
    pub refill_per_nano: u64,
}

/// The time from `last` to `now`; none if the clock stepped back.
pub open spec fn elapsed(last: u64, now: u64) -> nat {
    if now >= last {
        (now - last) as nat
    } else {
        0
    }
}

/// Whether a bucket has been idle long enough to be evicted.
pub open spec fn idle(bucket: Bucket, now: u64) -> bool {
    elapsed(bucket.last, now) >= IDLE_NANOS
}

/// The buckets that remain after the size is looked at.
pub open spec fn tidied(buckets: Map<Seq<char>, Bucket>, now: u64) -> Map<Seq<char>, Bucket> {
    if buckets.len() > MAX_BUCKETS {
        Map::new(
            |key: Seq<char>| buckets.contains_key(key) && !idle(buckets[key], now),
            |key: Seq<char>| buckets[key],
        )
    } else {
        buckets
    }
}

/// What `key` can spend at `now`: what its bucket held, refilled for the time
/// since, never above the capacity; the capacity for a key with no bucket.
pub open spec fn available(
    buckets: Map<Seq<char>, Bucket>,
    limits: Limits,
    key: Seq<char>,
    now: u64,
) -> nat {
    if buckets.contains_key(key) {
        let refilled = buckets[key].tokens + elapsed(buckets[key].last, now)
            * limits.refill_per_nano;
        if refilled <= limits.capacity {
            refilled as nat
        } else {
            limits.capacity as nat
        }
    } else {
        limits.capacity as nat
    }
}

/// Whether a request of `key` is allowed at `now`.
pub open spec fn allows(
    buckets: Map<Seq<char>, Bucket>,
    limits: Limits,
    key: Seq<char>,
    now: u64,
) -> bool {
    available(tidied(buckets, now), limits, key, now) >= TOKEN
}

/// The buckets after a request of `key` at `now`.
pub open spec fn after_request(
    buckets: Map<Seq<char>, Bucket>,
    limits: Limits,
    key: Seq<char>,
    now: u64,
) -> Map<Seq<char>, Bucket> {
    let kept = tidied(buckets, now);
    let held = available(kept, limits, key, now);
    let left = if held >= TOKEN {
        held - TOKEN
    } else {
        held as int
    };
    kept.insert(key, Bucket { tokens: left as u128, last: now })
}

struct Entry {
    key: String,
    bucket: Bucket,
}

/// A limiter: a bucket for each key seen, and the parameters.
pub struct RateLimiter {
    entries: Vec<Entry>,
    limits: Limits,
}

spec fn bucket_map(entries: Seq<Entry>) -> Map<Seq<char>, Bucket>
    decreases entries.len(),
{
    if entries.len() == 0 {
        Map::empty()
    } else {
        bucket_map(entries.drop_last()).insert(entries.last().key@, entries.last().bucket)
    }
}

spec fn distinct(entries: Seq<Entry>) -> bool {
    forall|i: int, j: int|
        0 <= i < j < entries.len() ==> (#[trigger] entries[i]).key@ != (#[trigger] entries[j]).key@
}

proof fn map_holds(entries: Seq<Entry>)
    requires
        distinct(entries),
    ensures
        bucket_map(entries).dom().finite(),
        bucket_map(entries).len() == entries.len(),
        forall|i: int|
            0 <= i < entries.len() ==> bucket_map(entries).contains_key(
                (#[trigger] entries[i]).key@,
            ) && bucket_map(entries)[entries[i].key@] == entries[i].bucket,
        forall|key: Seq<char>| #[trigger]
            bucket_map(entries).contains_key(key) ==> exists|i: int|
                0 <= i < entries.len() && (#[trigger] entries[i]).key@ == key,
    decreases entries.len(),
{
    if entries.len() > 0 {
        let rest = entries.drop_last();
        let last = entries.last();
        assert forall|i: int, j: int| 0 <= i < j < rest.len() implies (#[trigger] rest[i]).key@ != (
        #[trigger] rest[j]).key@ by {
            assert(rest[i] == entries[i] && rest[j] == entries[j]);
        }
        map_holds(rest);
        assert(!bucket_map(rest).contains_key(last.key@)) by {
            if bucket_map(rest).contains_key(last.key@) {
                let i = choose|i: int|
                    0 <= i < rest.len() && (#[trigger] rest[i]).key@ == last.key@;
                assert(entries[i].key@ == entries[entries.len() - 1].key@);
            }
        }
        assert forall|i: int| 0 <= i < entries.len() implies bucket_map(entries).contains_key(
            (#[trigger] entries[i]).key@,
        ) && bucket_map(entries)[entries[i].key@] == entries[i].bucket by {
            if i < rest.len() {
                assert(rest[i] == entries[i]);
            }
        }
        assert forall|key: Seq<char>| #[trigger]
            bucket_map(entries).contains_key(key) implies exists|i: int|
            0 <= i < entries.len() && (#[trigger] entries[i]).key@ == key by {
            if key == last.key@ {
                assert(entries[entries.len() - 1].key@ == key);
            } else {
                let i = choose|i: int| 0 <= i < rest.len() && (#[trigger] rest[i]).key@ == key;
                assert(entries[i].key@ == key);
            }
        }
    }
}

proof fn map_from(entries: Seq<Entry>, buckets: Map<Seq<char>, Bucket>)
    requires
        distinct(entries),
        forall|i: int|
            0 <= i < entries.len() ==> buckets.contains_key((#[trigger] entries[i]).key@)
                && buckets[entries[i].key@] == entries[i].bucket,
        forall|key: Seq<char>| #[trigger]
            buckets.contains_key(key) ==> exists|i: int|
                0 <= i < entries.len() && (#[trigger] entries[i]).key@ == key,
    ensures
        bucket_map(entries) == buckets,
{
    map_holds(entries);
    let found = bucket_map(entries);
    assert forall|key: Seq<char>| found.contains_key(key) == buckets.contains_key(key) && (
    found.contains_key(key) ==> found[key] == buckets[key]) by {
        if found.contains_key(key) {
            let i = choose|i: int| 0 <= i < entries.len() && (#[trigger] entries[i]).key@ == key;
            assert(buckets.contains_key(entries[i].key@));
        }
        if buckets.contains_key(key) {
            let i = choose|i: int| 0 <= i < entries.len() && (#[trigger] entries[i]).key@ == key;
            assert(found.contains_key(entries[i].key@));
        }
    }
    assert(found =~= buckets);
}

/// Whether `entry` stands at or after `from` and is not idle.
spec fn survives(entries: Seq<Entry>, from: int, entry: Entry, now: u64) -> bool {
    !idle(entry.bucket, now) && exists|i: int|
        from <= i < entries.len() && #[trigger] entries[i] == entry
}

proof fn keeping(entries: Seq<Entry>, kept: Seq<Entry>, at: int, now: u64)
    requires
        0 <= at < entries.len(),
        distinct(entries),
        distinct(kept),
        !idle(entries[at].bucket, now),
        forall|entry: Entry| #[trigger]
            kept.contains(entry) <==> survives(entries, at + 1, entry, now),
    ensures
        distinct(kept.push(entries[at])),
        forall|entry: Entry| #[trigger]
            kept.push(entries[at]).contains(entry) <==> survives(entries, at, entry, now),
{
    let more = kept.push(entries[at]);
    assert forall|i: int, j: int| 0 <= i < j < more.len() implies (#[trigger] more[i]).key@ != (
    #[trigger] more[j]).key@ by {
        if j == kept.len() {
            assert(kept.contains(kept[i]));
            let p = choose|p: int| at + 1 <= p < entries.len() && #[trigger] entries[p] == kept[i];
            assert(entries[at].key@ != entries[p].key@);
        }
    }
    assert forall|entry: Entry| #[trigger] more.contains(entry) <==> survives(
        entries,
        at,
        entry,
        now,
    ) by {
        if more.contains(entry) {
            let i = choose|i: int| 0 <= i < more.len() && more[i] == entry;
            if i < kept.len() {
                assert(kept.contains(kept[i]));
                let p = choose|p: int| at + 1 <= p < entries.len() && #[trigger] entries[p] == entry;
                assert(entries[p] == entry);
            } else {
                assert(entries[at] == entry);
            }
        }
        if survives(entries, at, entry, now) {
            let p = choose|p: int| at <= p < entries.len() && #[trigger] entries[p] == entry;
            if p == at {
                assert(more[kept.len() as int] == entry);
            } else {
                assert(survives(entries, at + 1, entry, now));
                assert(kept.contains(entry));
                let i = choose|i: int| 0 <= i < kept.len() && kept[i] == entry;
                assert(more[i] == entry);
            }
        }
    }
}

proof fn skipping(entries: Seq<Entry>, kept: Seq<Entry>, at: int, now: u64)
    requires
        0 <= at < entries.len(),
        idle(entries[at].bucket, now),
        forall|entry: Entry| #[trigger]
            kept.contains(entry) <==> survives(entries, at + 1, entry, now),
    ensures
        forall|entry: Entry| #[trigger]
            kept.contains(entry) <==> survives(entries, at, entry, now),
{
    assert forall|entry: Entry| #[trigger] kept.contains(entry) <==> survives(
        entries,
        at,
        entry,
        now,
    ) by {
        if survives(entries, at + 1, entry, now) {
            let p = choose|p: int| at + 1 <= p < entries.len() && #[trigger] entries[p] == entry;
            assert(entries[p] == entry);
        }
        if survives(entries, at, entry, now) {
            let p = choose|p: int| at <= p < entries.len() && #[trigger] entries[p] == entry;
            assert(p != at);
        }
    }
}

proof fn kept_map(entries: Seq<Entry>, kept: Seq<Entry>, now: u64)
    requires
        entries.len() > MAX_BUCKETS,
        distinct(entries),
        distinct(kept),
        forall|entry: Entry| #[trigger] kept.contains(entry) <==> survives(entries, 0, entry, now),
    ensures
        bucket_map(kept) == tidied(bucket_map(entries), now),
        forall|k: int|
            0 <= k < kept.len() ==> exists|i: int|
                0 <= i < entries.len() && #[trigger] entries[i] == #[trigger] kept[k],
{
    map_holds(entries);
    let buckets = tidied(bucket_map(entries), now);
    assert forall|k: int| 0 <= k < kept.len() implies {
        &&& buckets.contains_key((#[trigger] kept[k]).key@)
        &&& buckets[kept[k].key@] == kept[k].bucket
        &&& exists|i: int| 0 <= i < entries.len() && #[trigger] entries[i] == kept[k]
    } by {
        assert(kept.contains(kept[k]));
        assert(survives(entries, 0, kept[k], now));
    }
    assert forall|key: Seq<char>| #[trigger] buckets.contains_key(key) implies exists|k: int|
        0 <= k < kept.len() && (#[trigger] kept[k]).key@ == key by {
        let i = choose|i: int| 0 <= i < entries.len() && (#[trigger] entries[i]).key@ == key;
        assert(survives(entries, 0, entries[i], now));
        assert(kept.contains(entries[i]));
        let k = choose|k: int| 0 <= k < kept.len() && kept[k] == entries[i];
        assert(kept[k].key@ == key);
    }
    map_from(kept, buckets);
}

impl View for RateLimiter {
    type V = Map<Seq<char>, Bucket>;

    closed spec fn view(&self) -> Map<Seq<char>, Bucket> {
        bucket_map(self.entries@)
    }
}

impl RateLimiter {
    /// Each key has one bucket, and no bucket holds more than the capacity.
    pub closed spec fn well_formed(&self) -> bool {
        &&& distinct(self.entries@)
        &&& forall|i: int|
            0 <= i < self.entries@.len() ==> (#[trigger] self.entries@[i]).bucket.tokens
                <= self.limits.capacity
        &&& self.limits.capacity <= u64::MAX * NANOTOKEN
    }

    /// The limiter's parameters.
    pub closed spec fn spec_limits(&self) -> Limits {
        self.limits
    }

    /// A limiter with a burst of `capacity` and a refill of `refill_per_sec`,
    /// both in nanotokens.
    pub fn new(capacity: u64, refill_per_sec: u64) -> (limiter: Self)
        ensures
            limiter.well_formed(),
            limiter@ == Map::<Seq<char>, Bucket>::empty(),
            limiter.spec_limits() == (Limits {
                capacity: (capacity * NANOTOKEN) as u128,
                refill_per_nano: refill_per_sec,
            }),
    {
        RateLimiter {
            entries: Vec::new(),
            limits: Limits {
                capacity: capacity as u128 * NANOTOKEN,
                refill_per_nano: refill_per_sec,
            },
        }
    }

    fn tidy(&mut self, now: u64)
        requires
            old(self).well_formed(),
        ensures
            final(self).well_formed(),
            final(self).spec_limits() == old(self).spec_limits(),
            final(self)@ == tidied(old(self)@, now),
    {
        proof {
            map_holds(self.entries@);
        }
        if self.entries.len() <= MAX_BUCKETS {
            return;
        }
        let ghost before = self.entries@;
        let mut entries: Vec<Entry> = Vec::new();
        std::mem::swap(&mut entries, &mut self.entries);
        let mut kept: Vec<Entry> = Vec::new();
        assert(before.take(before.len() as int) =~= before);
        while entries.len() > 0
            invariant
                entries@.len() <= before.len(),
                entries@ == before.take(entries@.len() as int),
                distinct(before),
                distinct(kept@),
                forall|entry: Entry| #[trigger]
                    kept@.contains(entry) <==> survives(
                        before,
                        entries@.len() as int,
                        entry,
                        now,
                    ),
            decreases entries@.len(),
        {
            let ghost at = entries@.len() - 1;
            let ghost kept_before = kept@;
            let entry = match entries.pop() {
                Some(entry) => entry,
                None => {
                    return;
                },
            };
            assert(entry == before[at]);
            assert(entries@ =~= before.take(at));
            let age: u64 = if now >= entry.bucket.last {
                now - entry.bucket.last
            } else {
                0
            };
            if age < IDLE_NANOS {
                kept.push(entry);
                proof {
                    keeping(before, kept_before, at, now);
                }
            } else {
                proof {
                    skipping(before, kept_before, at, now);
                }
            }
        }
        self.entries = kept;
        proof {
            kept_map(before, kept@, now);
        }
    }

    /// Tries to spend one token of `key` at `now` (nanoseconds on a clock that
    /// does not step back); whether the request is allowed.
    pub fn check(&mut self, key: &str, now: u64) -> (allowed: bool)
        requires
            old(self).well_formed(),
        ensures
            final(self).well_formed(),
            final(self).spec_limits() == old(self).spec_limits(),
            allowed == allows(old(self)@, old(self).spec_limits(), key@, now),
            final(self)@ == after_request(old(self)@, old(self).spec_limits(), key@, now),
    {
        let ghost limits = self.limits;
        let ghost kept = tidied(self@, now);
        self.tidy(now);
        let ghost before = self.entries@;
        proof {
            map_holds(before);
        }
        let mut at: usize = 0;
        while at < self.entries.len() && !same_text(self.entries[at].key.as_str(), key)
            invariant
                self.entries@ == before,
                at <= before.len(),
                forall|i: int| 0 <= i < at ==> (#[trigger] before[i]).key@ != key@,
            decreases before.len() - at,
        {
            at += 1;
        }
        let known = at < self.entries.len();
        proof {
            if known {
                assert(before[at as int].key@ == key@);
            } else if kept.contains_key(key@) {
                let i = choose|i: int| 0 <= i < before.len() && (#[trigger] before[i]).key@ == key@;
                assert(false);
            }
        }
        let held: u128 = if known {
            let bucket = self.entries[at].bucket;
            let age: u64 = if now >= bucket.last {
                now - bucket.last
            } else {
                0
            };
            assert(age as nat * limits.refill_per_nano as nat <= u64::MAX * u64::MAX)
                by (nonlinear_arith)
                requires
                    age <= u64::MAX,
                    limits.refill_per_nano <= u64::MAX,
            ;
            let gained: u128 = age as u128 * self.limits.refill_per_nano as u128;
            if gained >= self.limits.capacity - bucket.tokens {
                self.limits.capacity
            } else {
                bucket.tokens + gained
            }
        } else {
            self.limits.capacity
        };
        assert(held == available(kept, limits, key@, now));
        let allowed = held >= TOKEN;
        let left: u128 = if allowed {
            held - TOKEN
        } else {
            held
        };
        let bucket = Bucket { tokens: left, last: now };
        let ghost after = kept.insert(key@, bucket);
        if known {
            let entry = Entry { key: key.to_owned(), bucket };
            self.entries.set(at, entry);
        } else {
            self.entries.push(Entry { key: key.to_owned(), bucket });
        }
        proof {
            let entries = self.entries@;
            assert forall|i: int, j: int| 0 <= i < j < entries.len() implies (
            #[trigger] entries[i]).key@ != (#[trigger] entries[j]).key@ by {
                if i < before.len() {
                    assert(entries[i].key@ == before[i].key@);
                }
                if j < before.len() {
                    assert(entries[j].key@ == before[j].key@);
                }
            }
            assert forall|i: int| 0 <= i < entries.len() implies after.contains_key(
                (#[trigger] entries[i]).key@,
            ) && after[entries[i].key@] == entries[i].bucket && entries[i].bucket.tokens
                <= limits.capacity by {
                if i != at {
                    assert(entries[i] == before[i]);
                    assert(before[i].key@ != key@) by {
                        if known {
                            assert(before[at as int].key@ == key@);
                        }
                    }
                }
            }
            assert forall|other: Seq<char>| #[trigger] after.contains_key(other) implies exists|i: int|
                0 <= i < entries.len() && (#[trigger] entries[i]).key@ == other by {
                if other == key@ {
                    assert(entries[at as int].key@ == other);
                } else {
                    let i = choose|i: int|
                        0 <= i < before.len() && (#[trigger] before[i]).key@ == other;
                    assert(entries[i].key@ == other);
                }
            }
            map_from(entries, after);
        }
        allowed
    }
}

/// A request: the key it came from and when.
pub struct Call {
    pub key: Seq<char>,
    pub at: u64,
}

/// The buckets after a run of requests.
pub open spec fn after_calls(
    buckets: Map<Seq<char>, Bucket>,
    limits: Limits,
    calls: Seq<Call>,
) -> Map<Seq<char>, Bucket>
    decreases calls.len(),
{
    if calls.len() == 0 {
        buckets
    } else {
        after_request(
            after_calls(buckets, limits, calls.drop_last()),
            limits,
            calls.last().key,
            calls.last().at,
        )
    }
}

/// How many requests of `key` a run allows.
pub open spec fn grants(
    buckets: Map<Seq<char>, Bucket>,
    limits: Limits,
    calls: Seq<Call>,
    key: Seq<char>,
) -> nat
    decreases calls.len(),
{
    if calls.len() == 0 {
        0
    } else {
        let earlier = calls.drop_last();
        let last = calls.last();
        grants(buckets, limits, earlier, key) + if last.key == key && allows(
            after_calls(buckets, limits, earlier),
            limits,
            last.key,
            last.at,
        ) {
            1nat
        } else {
            0nat
        }
    }
}

/// Whether the requests are in time order, none before `start`.
pub open spec fn in_order(calls: Seq<Call>, start: u64) -> bool {
    &&& forall|i: int| 0 <= i < calls.len() ==> start <= (#[trigger] calls[i]).at
    &&& forall|i: int, j: int|
        0 <= i < j < calls.len() ==> (#[trigger] calls[i]).at <= (#[trigger] calls[j]).at
}

/// The time of the last request of a run that began at `start`.
pub open spec fn end_time(calls: Seq<Call>, start: u64) -> u64 {
    if calls.len() == 0 {
        start
    } else {
        calls.last().at
    }
}

/// Whether every bucket was last touched by `now`.
pub open spec fn touched_by(buckets: Map<Seq<char>, Bucket>, now: u64) -> bool {
    forall|key: Seq<char>| #[trigger]
        buckets.contains_key(key) ==> buckets[key].last <= now
}

/// A bucket never holds more than the capacity, whatever was asked of it.
pub proof fn never_above_capacity(
    buckets: Map<Seq<char>, Bucket>,
    limits: Limits,
    key: Seq<char>,
    now: u64,
)
    ensures
        available(buckets, limits, key, now) <= limits.capacity,
        after_request(buckets, limits, key, now)[key].tokens <= limits.capacity,
{
}

/// Whether a request at `now` evicts no bucket but full ones. Any other comes
/// back full when its key is seen again.
pub open spec fn evicts_only_full(
    buckets: Map<Seq<char>, Bucket>,
    limits: Limits,
    now: u64,
) -> bool {
    buckets.len() > MAX_BUCKETS ==> forall|key: Seq<char>| #[trigger]
        buckets.contains_key(key) && idle(buckets[key], now) ==> available(
            buckets,
            limits,
            key,
            now,
        ) == limits.capacity
}

/// Whether a run of requests evicts no bucket but full ones.
pub open spec fn run_evicts_only_full(
    buckets: Map<Seq<char>, Bucket>,
    limits: Limits,
    calls: Seq<Call>,
) -> bool {
    forall|i: int|
        0 <= i < calls.len() ==> evicts_only_full(
            after_calls(buckets, limits, calls.take(i)),
            limits,
            (#[trigger] calls[i]).at,
        )
}

/// Where an idle hour refills a bucket, only full buckets are ever evicted.
pub proof fn refilled_in_an_idle_hour(
    buckets: Map<Seq<char>, Bucket>,
    limits: Limits,
    now: u64,
)
    requires
        IDLE_NANOS * limits.refill_per_nano >= limits.capacity,
    ensures
        evicts_only_full(buckets, limits, now),
{
    assert forall|key: Seq<char>| #[trigger]
        buckets.contains_key(key) && idle(buckets[key], now) implies available(
        buckets,
        limits,
        key,
        now,
    ) == limits.capacity by {
        let age = elapsed(buckets[key].last, now);
        assert(age * limits.refill_per_nano >= IDLE_NANOS * limits.refill_per_nano)
            by (nonlinear_arith)
            requires
                age >= IDLE_NANOS,
        ;
    }
}

/// One key's requests do not touch what another key may spend, as long as only
/// full buckets are evicted.
pub proof fn keys_are_independent(
    buckets: Map<Seq<char>, Bucket>,
    limits: Limits,
    key: Seq<char>,
    other: Seq<char>,
    now: u64,
)
    requires
        key != other,
        evicts_only_full(buckets, limits, now),
    ensures
        available(after_request(buckets, limits, key, now), limits, other, now) == available(
            buckets,
            limits,
            other,
            now,
        ),
{
    eviction_is_invisible(buckets, limits, other, now);
}

/// In a limiter that holds no more keys than its limit, one key's requests do
/// not touch what another key may spend, whatever the refill.
pub proof fn few_keys_are_independent(
    buckets: Map<Seq<char>, Bucket>,
    limits: Limits,
    key: Seq<char>,
    other: Seq<char>,
    now: u64,
)
    requires
        key != other,
        buckets.len() <= MAX_BUCKETS,
    ensures
        available(after_request(buckets, limits, key, now), limits, other, now) == available(
            buckets,
            limits,
            other,
            now,
        ),
{
    keys_are_independent(buckets, limits, key, other, now);
}

proof fn eviction_is_invisible(
    buckets: Map<Seq<char>, Bucket>,
    limits: Limits,
    key: Seq<char>,
    now: u64,
)
    requires
        evicts_only_full(buckets, limits, now),
    ensures
        available(tidied(buckets, now), limits, key, now) == available(buckets, limits, key, now),
{
}

proof fn waiting_refills(
    buckets: Map<Seq<char>, Bucket>,
    limits: Limits,
    key: Seq<char>,
    from: u64,
    to: u64,
)
    requires
        from <= to,
        touched_by(buckets, from),
    ensures
        available(buckets, limits, key, to) <= available(buckets, limits, key, from) + (to - from)
            * limits.refill_per_nano,
{
    assert((to - from) * limits.refill_per_nano >= 0) by (nonlinear_arith)
        requires
            from <= to,
    ;
    if buckets.contains_key(key) {
        let last = buckets[key].last;
        let rate = limits.refill_per_nano;
        assert((to - last) * rate == (from - last) * rate + (to - from) * rate) by (nonlinear_arith);
    }
}

/// The burst and the refill bound what a key gets: from `start` on, a run of
/// requests in time order is allowed no more often than the key could spend at
/// `start` and the refill since then add up to. What it could spend at `start`
/// is at most the capacity. Buckets that are evicted must be full.
pub proof fn grants_are_bounded(
    buckets: Map<Seq<char>, Bucket>,
    limits: Limits,
    calls: Seq<Call>,
    key: Seq<char>,
    start: u64,
)
    requires
        touched_by(buckets, start),
        in_order(calls, start),
        run_evicts_only_full(buckets, limits, calls),
    ensures
        grants(buckets, limits, calls, key) * TOKEN + available(
            after_calls(buckets, limits, calls),
            limits,
            key,
            end_time(calls, start),
        ) <= available(buckets, limits, key, start) + (end_time(calls, start) - start)
            * limits.refill_per_nano,
        grants(buckets, limits, calls, key) * TOKEN <= limits.capacity + (end_time(calls, start)
            - start) * limits.refill_per_nano,
        touched_by(after_calls(buckets, limits, calls), end_time(calls, start)),
    decreases calls.len(),
{
    never_above_capacity(buckets, limits, key, start);
    if calls.len() > 0 {
        let earlier = calls.drop_last();
        let last = calls.last();
        let mid = end_time(earlier, start);
        let rate = limits.refill_per_nano;
        assert(in_order(earlier, start)) by {
            assert forall|i: int, j: int| 0 <= i < j < earlier.len() implies (
            #[trigger] earlier[i]).at <= (#[trigger] earlier[j]).at by {
                assert(earlier[i] == calls[i] && earlier[j] == calls[j]);
            }
            assert forall|i: int| 0 <= i < earlier.len() implies start <= (#[trigger] earlier[i]).at by {
                assert(earlier[i] == calls[i]);
            }
        }
        assert(run_evicts_only_full(buckets, limits, earlier)) by {
            assert forall|i: int| 0 <= i < earlier.len() implies evicts_only_full(
                after_calls(buckets, limits, earlier.take(i)),
                limits,
                (#[trigger] earlier[i]).at,
            ) by {
                assert(earlier.take(i) =~= calls.take(i) && earlier[i] == calls[i]);
            }
        }
        assert(earlier =~= calls.take(calls.len() - 1));
        assert(evicts_only_full(
            after_calls(buckets, limits, calls.take(calls.len() - 1)),
            limits,
            calls[calls.len() - 1].at,
        ));
        grants_are_bounded(buckets, limits, earlier, key, start);
        assert(last == calls[calls.len() - 1]);
        assert(mid <= last.at) by {
            if earlier.len() > 0 {
                assert(earlier.last() == calls[calls.len() - 2]);
            }
        }
        let before = after_calls(buckets, limits, earlier);
        waiting_refills(before, limits, key, mid, last.at);
        eviction_is_invisible(before, limits, key, last.at);
        assert((last.at - start) * rate == (mid - start) * rate + (last.at - mid) * rate)
            by (nonlinear_arith);
        let after = after_request(before, limits, last.key, last.at);
        never_above_capacity(before, limits, last.key, last.at);
        if last.key != key {
            keys_are_independent(before, limits, last.key, key, last.at);
        } else {
            let count = grants(buckets, limits, earlier, key);
            assert((count + 1) * TOKEN == count * TOKEN + TOKEN) by (nonlinear_arith);
            assert(elapsed(last.at, last.at) * rate == 0) by (nonlinear_arith)
                requires
                    elapsed(last.at, last.at) == 0,
            ;
            let held = available(before, limits, key, last.at);
            let left = if held >= TOKEN {
                held - TOKEN
            } else {
                held as int
            };
            assert(after[key].tokens == left);
            assert(available(after, limits, key, last.at) == left);
        }
    } else {
        assert((end_time(calls, start) - start) * limits.refill_per_nano == 0) by (nonlinear_arith)
            requires
                end_time(calls, start) == start,
        ;
    }
}

/// The bound holds of every limiter whose buckets an idle hour refills.
pub proof fn grants_are_bounded_by_the_refill(
    buckets: Map<Seq<char>, Bucket>,
    limits: Limits,
    calls: Seq<Call>,
    key: Seq<char>,
    start: u64,
)
    requires
        touched_by(buckets, start),
        in_order(calls, start),
        IDLE_NANOS * limits.refill_per_nano >= limits.capacity,
    ensures
        grants(buckets, limits, calls, key) * TOKEN <= limits.capacity + (end_time(calls, start)
            - start) * limits.refill_per_nano,
{
    assert forall|i: int| 0 <= i < calls.len() implies evicts_only_full(
        after_calls(buckets, limits, calls.take(i)),
        limits,
        (#[trigger] calls[i]).at,
    ) by {
        refilled_in_an_idle_hour(
            after_calls(buckets, limits, calls.take(i)),
            limits,
            calls[i].at,
        );
    }
    grants_are_bounded(buckets, limits, calls, key, start);
}

/// The bound holds of every limiter, whatever its refill, that never holds more
/// keys than its limit.
pub proof fn grants_are_bounded_for_few_keys(
    buckets: Map<Seq<char>, Bucket>,
    limits: Limits,
    calls: Seq<Call>,
    key: Seq<char>,
    start: u64,
)
    requires
        touched_by(buckets, start),
        in_order(calls, start),
        forall|i: int|
            0 <= i < calls.len() ==> after_calls(
                buckets,
                limits,
                #[trigger] calls.take(i),
            ).len() <= MAX_BUCKETS,
    ensures
        grants(buckets, limits, calls, key) * TOKEN <= limits.capacity + (end_time(calls, start)
            - start) * limits.refill_per_nano,
{
    assert forall|i: int| 0 <= i < calls.len() implies evicts_only_full(
        after_calls(buckets, limits, calls.take(i)),
        limits,
        (#[trigger] calls[i]).at,
    ) by {
        assert(after_calls(buckets, limits, calls.take(i)).len() <= MAX_BUCKETS);
    }
    grants_are_bounded(buckets, limits, calls, key, start);
}

} // verus!
