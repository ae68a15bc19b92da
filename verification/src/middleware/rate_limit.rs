//! Sliding-window rate limiting per client address, globally and per endpoint.
//!
//! Each client's request times are kept as nanoseconds on the limiter's
//! monotonic clock. A request is allowed when fewer than `max_requests` of the
//! recorded requests lie inside the window that ends now; allowed requests are
//! recorded, refused ones are not.

use std::collections::HashMap;
use std::hash::Hash;
use std::time::Instant;
use crate::clock::{clock_origin, nanos_since};
use vstd::prelude::*;
use vstd::std_specs::hash::obeys_key_model;
use vstd::std_specs::iter::IteratorSpec;
use crate::text::{chars_of, dec, extend_chars, extend_str, str_eq, string_of, u64_dec};

verus! {

broadcast use vstd::std_specs::hash::group_hash_axioms;

/// Nanoseconds per second.
pub const NANOS_PER_SEC: u128 = 1_000_000_000;

/// A client address, as the limiter keys it.
#[derive(PartialEq, Eq, Clone, Copy, Debug)]
pub enum ClientIp {
    V4(u32),
    V6(u128),
}

/// A refused request: how many whole seconds the client should wait.
#[derive(PartialEq, Eq, Clone, Copy, Debug)]
pub struct RateLimited {
    pub retry_after_seconds: u64,
}

// ---------------------------------------------------------------------------
// The window
// ---------------------------------------------------------------------------

/// A recorded request time `t` still counts at time `now` when it lies less
/// than `window` nanoseconds back, or when it lies after `now` (a clock that
/// went backwards keeps the entry).
pub open spec fn counts_at(t: u128, now: u128, window: u128) -> bool {
    t > now || now - t < window
}

/// The recorded times that still count at `now`, in their order.
pub open spec fn recent(ts: Seq<u128>, now: u128, window: u128) -> Seq<u128>
    decreases ts.len(),
{
    if ts.len() == 0 {
        ts
    } else if counts_at(ts.last(), now, window) {
        recent(ts.drop_last(), now, window).push(ts.last())
    } else {
        recent(ts.drop_last(), now, window)
    }
}

/// How long a refused client should wait: the time until the oldest counted
/// request leaves the window, in whole seconds (rounded down); one second when
/// that request lies after `now`. With no counted request, the whole window.
pub open spec fn retry_after(r: Seq<u128>, now: u128, window: u128) -> u64 {
    let oldest = if r.len() > 0 { r[0] } else { now };
    if now >= oldest {
        let elapsed = now - oldest;
        let left: u128 = if window > elapsed { (window - elapsed) as u128 } else { 0 };
        (left / NANOS_PER_SEC) as u64
    } else {
        1
    }
}

/// The decision for a request at `now` given the client's recorded times:
/// the outcome and the client's recorded times afterwards.
pub open spec fn decide(ts: Seq<u128>, now: u128, window: u128, max: nat) -> (
    Result<(), RateLimited>,
    Seq<u128>,
) {
    let r = recent(ts, now, window);
    if r.len() >= max {
        (Err(RateLimited { retry_after_seconds: retry_after(r, now, window) }), r)
    } else {
        (Ok(()), r.push(now))
    }
}

/// Filtering never adds times.
proof fn lemma_recent_len(ts: Seq<u128>, now: u128, window: u128)
    ensures
        recent(ts, now, window).len() <= ts.len(),
    decreases ts.len(),
{
    if ts.len() > 0 {
        lemma_recent_len(ts.drop_last(), now, window);
    }
}

/// Every time kept at `now` counts at `now`.
proof fn lemma_recent_counts(ts: Seq<u128>, now: u128, window: u128)
    ensures
        forall|i: int|
            0 <= i < recent(ts, now, window).len() ==> counts_at(
                #[trigger] recent(ts, now, window)[i],
                now,
                window,
            ),
    decreases ts.len(),
{
    if ts.len() > 0 {
        lemma_recent_counts(ts.drop_last(), now, window);
        let r0 = recent(ts.drop_last(), now, window);
        if counts_at(ts.last(), now, window) {
            assert forall|i: int|
                0 <= i < r0.push(ts.last()).len() implies counts_at(
                #[trigger] r0.push(ts.last())[i],
                now,
                window,
            ) by {
                if i < r0.len() {
                    assert(r0.push(ts.last())[i] == r0[i]);
                }
            }
        }
    }
}

/// Filtering at an earlier time and then at a later one keeps exactly what
/// filtering at the later time keeps.
proof fn lemma_recent_compose(ts: Seq<u128>, t1: u128, t2: u128, window: u128)
    requires
        t1 <= t2,
    ensures
        recent(recent(ts, t1, window), t2, window) == recent(ts, t2, window),
    decreases ts.len(),
{
    if ts.len() > 0 {
        lemma_recent_compose(ts.drop_last(), t1, t2, window);
        let x = ts.last();
        let r1 = recent(ts.drop_last(), t1, window);
        if counts_at(x, t1, window) {
            assert(r1.push(x).drop_last() == r1);
        }
    }
}

/// Filtering keeps a sequence whose times all count.
proof fn lemma_recent_all_counted(ts: Seq<u128>, now: u128, window: u128)
    requires
        forall|i: int| 0 <= i < ts.len() ==> counts_at(#[trigger] ts[i], now, window),
    ensures
        recent(ts, now, window) == ts,
    decreases ts.len(),
{
    if ts.len() > 0 {
        assert forall|i: int| 0 <= i < ts.drop_last().len() implies counts_at(
            #[trigger] ts.drop_last()[i],
            now,
            window,
        ) by {
            assert(ts.drop_last()[i] == ts[i]);
        }
        lemma_recent_all_counted(ts.drop_last(), now, window);
        assert(ts.drop_last().push(ts.last()) == ts);
    }
}

/// Filtering empties a sequence none of whose times counts.
proof fn lemma_recent_none_counted(ts: Seq<u128>, now: u128, window: u128)
    requires
        forall|i: int| 0 <= i < ts.len() ==> !counts_at(#[trigger] ts[i], now, window),
    ensures
        recent(ts, now, window).len() == 0,
    decreases ts.len(),
{
    if ts.len() > 0 {
        assert forall|i: int| 0 <= i < ts.drop_last().len() implies !counts_at(
            #[trigger] ts.drop_last()[i],
            now,
            window,
        ) by {
            assert(ts.drop_last()[i] == ts[i]);
        }
        lemma_recent_none_counted(ts.drop_last(), now, window);
    }
}

/// Keeps the times of `ts` that still count at `now`.
fn filter_recent(ts: &Vec<u128>, now: u128, window: u128) -> (r: Vec<u128>)
    ensures
        r@ == recent(ts@, now, window),
{
    let mut out: Vec<u128> = Vec::new();
    let mut i: usize = 0;
    while i < ts.len()
        invariant
            i <= ts.len(),
            out@ == recent(ts@.take(i as int), now, window),
        decreases ts.len() - i,
    {
        let ghost pre = ts@.take(i + 1);
        assert(pre.drop_last() == ts@.take(i as int));
        let t = ts[i];
        if t > now || now - t < window {
            out.push(t);
        }
        i += 1;
    }
    assert(ts@.take(ts.len() as int) == ts@);
    out
}

fn retry_after_exec(r: &Vec<u128>, now: u128, window: u128) -> (s: u64)
    ensures
        s == retry_after(r@, now, window),
{
    let oldest = if r.len() > 0 { r[0] } else { now };
    if now >= oldest {
        let elapsed = now - oldest;
        let left: u128 = if window > elapsed { window - elapsed } else { 0 };
        (left / NANOS_PER_SEC) as u64
    } else {
        1
    }
}


// ---------------------------------------------------------------------------
// Per-key histories
// ---------------------------------------------------------------------------

/// The recorded request times per key.
pub struct History<K> {
    map: HashMap<K, Vec<u128>>,
}

impl<K> History<K> {
    /// The recorded times per key.
    pub closed spec fn view(&self) -> Map<K, Seq<u128>> {
        self.map@.map_values(|v: Vec<u128>| v@)
    }

    /// The times recorded for `k` (none when `k` has no entry).
    pub open spec fn times(&self, k: K) -> Seq<u128> {
        if self.view().contains_key(k) {
            self.view()[k]
        } else {
            Seq::empty()
        }
    }
}

impl<K: Eq + Hash + Copy> History<K> {
    pub fn new() -> (h: Self)
        ensures
            h.view() == Map::<K, Seq<u128>>::empty(),
    {
        let h = History { map: HashMap::new() };
        assert(h.view() =~= Map::<K, Seq<u128>>::empty());
        h
    }

    /// Decides a request for key `k` at `now` and records it when allowed.
    pub fn check(&mut self, k: K, now: u128, window: u128, max: usize) -> (r: Result<
        (),
        RateLimited,
    >)
        requires
            obeys_key_model::<K>(),
        ensures
            r == decide(old(self).times(k), now, window, max as nat).0,
            final(self).view() == old(self).view().insert(
                k,
                decide(old(self).times(k), now, window, max as nat).1,
            ),
    {
        let ghost before = self.view();
        let old_ts: Vec<u128> = match self.map.remove(&k) {
            Some(v) => v,
            None => Vec::new(),
        };
        assert(old_ts@ == old(self).times(k));
        let mut r = filter_recent(&old_ts, now, window);
        let out = if r.len() >= max {
            let secs = retry_after_exec(&r, now, window);
            Err(RateLimited { retry_after_seconds: secs })
        } else {
            r.push(now);
            Ok(())
        };
        self.map.insert(k, r);
        assert(self.view() =~= before.insert(k, decide(old(self).times(k), now, window, max as nat).1));
        out
    }

    /// Drops the times that no longer count at `now`, and the keys left with none.
    pub fn cleanup(&mut self, now: u128, window: u128)
        requires
            obeys_key_model::<K>(),
        ensures
            forall|k: K|
                #![trigger final(self).view().contains_key(k)]
                final(self).view().contains_key(k) <==> (old(self).view().contains_key(k)
                    && recent(old(self).view()[k], now, window).len() > 0),
            forall|k: K|
                #![trigger final(self).view()[k]]
                final(self).view().contains_key(k) ==> final(self).view()[k] == recent(
                    old(self).view()[k],
                    now,
                    window,
                ),
    {
        let ghost before = self.view();
        let mut keys: Vec<K> = Vec::new();
        for key in it: self.map.keys()
            invariant
                keys@ == it.seq().take(it.index()).map_values(|k: &K| *k),
                it.seq() == vstd::std_specs::hash::spec_keys_iter(&self.map).remaining(),
        {
            keys.push(*key);
        }
        proof {
            let rem = vstd::std_specs::hash::spec_keys_iter(&self.map).remaining();
            assert(rem.take(rem.len() as int) == rem);
            assert(keys@ =~= rem.unref());
        }
        let mut i: usize = 0;
        while i < keys.len()
            invariant
                obeys_key_model::<K>(),
                i <= keys.len(),
                keys@.no_duplicates(),
                keys@.to_set() == before.dom(),
                forall|k: K| self.view().contains_key(k) ==> before.contains_key(k),
                forall|k: K|
                    #![trigger before.contains_key(k)]
                    before.contains_key(k) && !keys@.take(i as int).contains(k) ==> self.view().contains_key(k)
                        && self.view()[k] == before[k],
                forall|k: K|
                    #![trigger before.contains_key(k)]
                    before.contains_key(k) && keys@.take(i as int).contains(k) ==> (self.view().contains_key(k)
                        <==> recent(before[k], now, window).len() > 0),
                forall|k: K|
                    #![trigger before.contains_key(k)]
                    before.contains_key(k) && keys@.take(i as int).contains(k) && self.view().contains_key(k)
                        ==> self.view()[k] == recent(before[k], now, window),
            decreases keys.len() - i,
        {
            let k = keys[i];
            let ghost cur = self.view();
            let ghost cur_m = self.map@;
            assert(keys@.to_set().contains(k));
            assert(!keys@.take(i as int).contains(k)) by {
                if keys@.take(i as int).contains(k) {
                    let j = choose|j: int| 0 <= j < i && keys@.take(i as int)[j] == k;
                    assert(keys@[j] == keys@[i as int]);
                }
            }
            assert(keys@.take(i + 1) == keys@.take(i as int).push(k));
            assert(before.contains_key(k));
            assert(self.view().contains_key(k));
            assert(cur_m.contains_key(k));
            if let Some(v) = self.map.remove(&k) {
                assert(self.map@ == cur_m.remove(k));
                assert(v == cur_m[k]);
                let r = filter_recent(&v, now, window);
                if r.len() > 0 {
                    self.map.insert(k, r);
                    assert(self.map@ == cur_m.remove(k).insert(k, r));
                    assert(self.view() =~= cur.insert(k, r@));
                } else {
                    assert(self.view() =~= cur.remove(k));
                }
            } else {
                assert(false);
            }
            proof {
                let t0 = keys@.take(i as int);
                let t1 = keys@.take(i + 1);
                assert forall|k2: K| before.contains_key(k2) && !keys@.take(i + 1).contains(k2) implies (
                self.view().contains_key(k2) && self.view()[k2] == before[k2]) by {
                    assert(before.contains_key(k2));
                    assert(keys@.take(i + 1).contains(k2) <== keys@.take(i as int).contains(k2)) by {
                        if keys@.take(i as int).contains(k2) {
                            let j = choose|j: int| 0 <= j < i && keys@.take(i as int)[j] == k2;
                            assert(keys@.take(i + 1)[j] == k2);
                        }
                    }
                    assert(k2 != k) by {
                        assert(keys@.take(i + 1)[i as int] == k);
                    }
                }
                assert forall|k2: K|
                    before.contains_key(k2) && keys@.take(i + 1).contains(k2) implies (
                self.view().contains_key(k2) <==> recent(before[k2], now, window).len() > 0) by {
                    if k2 != k {
                        let j = choose|j: int| 0 <= j < t1.len() && t1[j] == k2;
                        assert(j != i);
                        assert(t0[j] == k2);
                    }
                }
                assert forall|k2: K|
                    before.contains_key(k2) && keys@.take(i + 1).contains(k2) && self.view().contains_key(k2)
                        implies self.view()[k2] == recent(before[k2], now, window) by {
                    if k2 != k {
                        let j = choose|j: int| 0 <= j < t1.len() && t1[j] == k2;
                        assert(j != i);
                        assert(t0[j] == k2);
                    }
                }
            }
            i += 1;
        }
        proof {
            assert(keys@.take(keys.len() as int) == keys@);
            assert forall|k: K| before.contains_key(k) implies keys@.contains(k) by {
                assert(keys@.to_set().contains(k));
            }
            assert forall|k: K|
                #![trigger self.view().contains_key(k)]
                self.view().contains_key(k) <==> (before.contains_key(k) && recent(
                    before[k],
                    now,
                    window,
                ).len() > 0) by {
                if before.contains_key(k) {
                    assert(keys@.contains(k));
                }
            }
            assert forall|k: K|
                #![trigger self.view()[k]]
                self.view().contains_key(k) implies self.view()[k] == recent(before[k], now, window) by {
                assert(keys@.contains(k));
            }
        }
    }
}

// ---------------------------------------------------------------------------
// The limiter
// ---------------------------------------------------------------------------

/// A sliding-window limiter over client addresses.
pub struct RateLimiter {
    v4: History<u32>,
    v6: History<u128>,
    max_requests: usize,
    window: u128,
    origin: Instant,
}

impl RateLimiter {
    /// The most requests a client may make within one window.
    pub closed spec fn max_requests(&self) -> nat {
        self.max_requests as nat
    }

    /// The window length in nanoseconds.
    pub closed spec fn window_nanos(&self) -> u128 {
        self.window
    }

    /// The request times recorded for a client.
    pub closed spec fn times(&self, ip: ClientIp) -> Seq<u128> {
        match ip {
            ClientIp::V4(a) => self.v4.times(a),
            ClientIp::V6(b) => self.v6.times(b),
        }
    }

    /// A limiter with the given limits and no recorded requests.
    pub open spec fn is_fresh(&self, max_requests: usize, window_seconds: u64) -> bool {
        &&& self.max_requests() == max_requests as nat
        &&& self.window_nanos() == window_seconds as u128 * NANOS_PER_SEC
        &&& forall|ip: ClientIp| #[trigger] self.times(ip) == Seq::<u128>::empty()
    }

    /// Creates a limiter allowing `max_requests` per `window_seconds` per client.
    pub fn new(max_requests: usize, window_seconds: u64) -> (l: Self)
        ensures
            l.is_fresh(max_requests, window_seconds),
    {
        let l = RateLimiter {
            v4: History::new(),
            v6: History::new(),
            max_requests,
            window: window_seconds as u128 * NANOS_PER_SEC,
            origin: clock_origin(),
        };
        assert forall|ip: ClientIp| #[trigger] l.times(ip) == Seq::<u128>::empty() by {}
        l
    }

    /// Decides a request from `ip` at time `now` (nanoseconds on this
    /// limiter's clock): the outcome is `decide`'s, the client's recorded
    /// times become `decide`'s, every other client is left as it was.
    pub fn check_rate_limit_at(&mut self, ip: ClientIp, now: u128) -> (r: Result<(), RateLimited>)
        ensures
            r == decide(old(self).times(ip), now, old(self).window_nanos(), old(self).max_requests()).0,
            final(self).times(ip) == decide(
                old(self).times(ip),
                now,
                old(self).window_nanos(),
                old(self).max_requests(),
            ).1,
            forall|other: ClientIp|
                other != ip ==> #[trigger] final(self).times(other) == old(self).times(other),
            final(self).max_requests() == old(self).max_requests(),
            final(self).window_nanos() == old(self).window_nanos(),
    {
        match ip {
            ClientIp::V4(a) => {
                let r = self.v4.check(a, now, self.window, self.max_requests);
                assert forall|other: ClientIp| other != ip implies #[trigger] self.times(other)
                    == old(self).times(other) by {
                    if let ClientIp::V4(b) = other {
                        assert(b != a);
                    }
                }
                r
            },
            ClientIp::V6(a) => {
                let r = self.v6.check(a, now, self.window, self.max_requests);
                assert forall|other: ClientIp| other != ip implies #[trigger] self.times(other)
                    == old(self).times(other) by {
                    if let ClientIp::V6(b) = other {
                        assert(b != a);
                    }
                }
                r
            },
        }
    }

    /// Decides a request from `ip` now, reading this limiter's clock; the
    /// outcome is `check_rate_limit_at`'s for the time that was read.
    pub fn check_rate_limit(&mut self, ip: ClientIp) -> (r: Result<(), RateLimited>)
        ensures
            exists|now: u128|
                {
                    &&& r == decide(
                        old(self).times(ip),
                        now,
                        old(self).window_nanos(),
                        old(self).max_requests(),
                    ).0
                    &&& #[trigger] final(self).times(ip) == decide(
                        old(self).times(ip),
                        now,
                        old(self).window_nanos(),
                        old(self).max_requests(),
                    ).1
                },
            forall|other: ClientIp|
                other != ip ==> #[trigger] final(self).times(other) == old(self).times(other),
            final(self).max_requests() == old(self).max_requests(),
            final(self).window_nanos() == old(self).window_nanos(),
    {
        let now = nanos_since(&self.origin);
        self.check_rate_limit_at(ip, now)
    }

    /// Every client's times are its times in `before` that still count at `now`.
    pub open spec fn is_cleanup_of(&self, before: &RateLimiter, now: u128) -> bool {
        forall|ip: ClientIp|
            #[trigger] self.times(ip) == recent(before.times(ip), now, before.window_nanos())
    }

    /// Drops, for every client, the request times that no longer count at `now`.
    pub fn cleanup_old_entries_at(&mut self, now: u128)
        ensures
            forall|ip: ClientIp|
                #[trigger] final(self).times(ip) == recent(old(self).times(ip), now, old(self).window_nanos()),
            final(self).max_requests() == old(self).max_requests(),
            final(self).window_nanos() == old(self).window_nanos(),
    {
        self.v4.cleanup(now, self.window);
        self.v6.cleanup(now, self.window);
        assert forall|ip: ClientIp|
            #[trigger] self.times(ip) == recent(old(self).times(ip), now, old(self).window_nanos()) by {
            match ip {
                ClientIp::V4(a) => {
                    if !self.v4.view().contains_key(a) && old(self).v4.view().contains_key(a) {
                        assert(recent(old(self).v4.view()[a], now, self.window).len() == 0);
                    }
                },
                ClientIp::V6(a) => {
                    if !self.v6.view().contains_key(a) && old(self).v6.view().contains_key(a) {
                        assert(recent(old(self).v6.view()[a], now, self.window).len() == 0);
                    }
                },
            }
        }
    }

    /// Drops the request times that no longer count, reading this limiter's clock.
    pub fn cleanup_old_entries(&mut self)
        ensures
            exists|now: u128| #[trigger] final(self).is_cleanup_of(old(self), now),
            final(self).max_requests() == old(self).max_requests(),
            final(self).window_nanos() == old(self).window_nanos(),
    {
        let now = nanos_since(&self.origin);
        self.cleanup_old_entries_at(now);
        assert(self.is_cleanup_of(old(self), now));
    }
}

// ---------------------------------------------------------------------------
// Laws
// ---------------------------------------------------------------------------

/// Cleaning up at one time never changes the decision for a request at the
/// same or a later time.
pub proof fn lemma_cleanup_keeps_decisions(ts: Seq<u128>, t1: u128, t2: u128, window: u128, max: nat)
    requires
        t1 <= t2,
    ensures
        decide(recent(ts, t1, window), t2, window, max) == decide(ts, t2, window, max),
{
    lemma_recent_compose(ts, t1, t2, window);
}

/// After an allowed request at `now`, at most `max` requests of that client
/// are recorded, and all of them lie in the window that ends at `now`
/// (for a window of positive length).
pub proof fn lemma_allowed_stays_within_limit(ts: Seq<u128>, now: u128, window: u128, max: nat)
    requires
        window > 0,
        decide(ts, now, window, max).0 is Ok,
    ensures
        decide(ts, now, window, max).1.len() <= max,
        forall|i: int|
            0 <= i < decide(ts, now, window, max).1.len() ==> counts_at(
                #[trigger] decide(ts, now, window, max).1[i],
                now,
                window,
            ),
{
    lemma_recent_counts(ts, now, window);
    let r = recent(ts, now, window);
    assert forall|i: int| 0 <= i < r.push(now).len() implies counts_at(
        #[trigger] r.push(now)[i],
        now,
        window,
    ) by {
        if i < r.len() {
            assert(r.push(now)[i] == r[i]);
        }
    }
}

/// A refused client is refused again, with the same wait, when it retries at
/// the same instant.
pub proof fn lemma_refusal_persists(ts: Seq<u128>, now: u128, window: u128, max: nat)
    requires
        decide(ts, now, window, max).0 is Err,
    ensures
        decide(decide(ts, now, window, max).1, now, window, max) == decide(ts, now, window, max),
{
    lemma_recent_compose(ts, now, now, window);
}

/// Once every recorded request of a client lies a whole window or more in the
/// past, its next request is allowed (when the limit allows any request).
pub proof fn lemma_window_expiry(ts: Seq<u128>, now: u128, window: u128, max: nat)
    requires
        max >= 1,
        forall|i: int| 0 <= i < ts.len() ==> #[trigger] ts[i] <= now && now - ts[i] >= window,
    ensures
        decide(ts, now, window, max).0 is Ok,
{
    lemma_recent_none_counted(ts, now, window);
}

/// A client's recorded times after its requests at the times `calls`, from
/// no record, each decided as `decide` does.
pub open spec fn replay(calls: Seq<u128>, window: u128, max: nat) -> Seq<u128>
    decreases calls.len(),
{
    if calls.len() == 0 {
        Seq::empty()
    } else {
        decide(replay(calls.drop_last(), window, max), calls.last(), window, max).1
    }
}

/// Whether the last of the requests at the times `calls` was allowed.
pub open spec fn last_allowed(calls: Seq<u128>, window: u128, max: nat) -> bool {
    calls.len() > 0 && decide(replay(calls.drop_last(), window, max), calls.last(), window, max).0 is Ok
}

/// The times of the allowed requests among `calls`, in order.
pub open spec fn allowed_times(calls: Seq<u128>, window: u128, max: nat) -> Seq<u128>
    decreases calls.len(),
{
    if calls.len() == 0 {
        Seq::empty()
    } else if last_allowed(calls, window, max) {
        allowed_times(calls.drop_last(), window, max).push(calls.last())
    } else {
        allowed_times(calls.drop_last(), window, max)
    }
}

/// Whether the times never go backwards.
pub open spec fn nondecreasing(calls: Seq<u128>) -> bool {
    forall|i: int, j: int| 0 <= i <= j < calls.len() ==> calls[i] <= calls[j]
}

/// What is recorded after a run of requests is exactly the allowed requests
/// that still count at the last one's time: refused requests are never
/// recorded.
proof fn lemma_replay_records_allowed(calls: Seq<u128>, window: u128, max: nat)
    requires
        window > 0,
        calls.len() > 0,
        nondecreasing(calls),
    ensures
        replay(calls, window, max) == recent(allowed_times(calls, window, max), calls.last(), window),
    decreases calls.len(),
{
    let t = calls.last();
    let c = calls.drop_last();
    let a = allowed_times(c, window, max);
    if c.len() == 0 {
        assert(recent(Seq::<u128>::empty(), t, window) == Seq::<u128>::empty());
        assert(a == Seq::<u128>::empty());
        assert(a.push(t).drop_last() == a);
        assert(counts_at(t, t, window));
        assert(recent(a.push(t), t, window) == recent(a, t, window).push(t));
    } else {
        assert(nondecreasing(c)) by {
            assert forall|i: int, j: int| 0 <= i <= j < c.len() implies c[i] <= c[j] by {
                assert(c[i] == calls[i] && c[j] == calls[j]);
            }
        }
        lemma_replay_records_allowed(c, window, max);
        assert(c.last() <= t) by {
            assert(c.last() == calls[calls.len() - 2]);
        }
        lemma_recent_compose(a, c.last(), t, window);
        assert(a.push(t).drop_last() == a);
        assert(counts_at(t, t, window));
        assert(recent(a.push(t), t, window) == recent(a, t, window).push(t));
    }
}

/// Over any run of one client's requests at nondecreasing times (with a
/// window of positive length), when a request is allowed, the allowed
/// requests that lie in the window ending at its time (itself included)
/// number at most `max`; and what the limiter has recorded is exactly those
/// allowed requests, none that was refused.
pub proof fn lemma_window_holds_at_most_max(calls: Seq<u128>, window: u128, max: nat)
    requires
        window > 0,
        calls.len() > 0,
        nondecreasing(calls),
    ensures
        replay(calls, window, max) == recent(allowed_times(calls, window, max), calls.last(), window),
        last_allowed(calls, window, max) ==> recent(
            allowed_times(calls, window, max),
            calls.last(),
            window,
        ).len() <= max,
{
    lemma_replay_records_allowed(calls, window, max);
    if last_allowed(calls, window, max) {
        lemma_allowed_stays_within_limit(
            replay(calls.drop_last(), window, max),
            calls.last(),
            window,
            max,
        );
    }
}

// ---------------------------------------------------------------------------
// Per-endpoint limiters
// ---------------------------------------------------------------------------

/// An endpoint's name and its limiter.
pub struct EndpointLimit {
    pub endpoint: String,
    pub limiter: RateLimiter,
}

/// The position of the first limiter for `name`, or -1.
pub open spec fn find_endpoint(s: Seq<EndpointLimit>, name: Seq<char>) -> int
    decreases s.len(),
{
    if s.len() == 0 {
        -1
    } else if find_endpoint(s.drop_last(), name) >= 0 {
        find_endpoint(s.drop_last(), name)
    } else if s.last().endpoint@ == name {
        s.len() - 1
    } else {
        -1
    }
}

/// The position of the last limit for `name` among the first `upto` limits, or -1.
pub open spec fn last_limit(limits: Seq<(&str, usize, u64)>, name: Seq<char>, upto: int) -> int
    decreases upto,
{
    if upto <= 0 {
        -1
    } else if limits[upto - 1].0@ == name {
        upto - 1
    } else {
        last_limit(limits, name, upto - 1)
    }
}

/// The limiter that `entries` holds for `name`, if any.
pub open spec fn limiter_for_in(entries: Seq<EndpointLimit>, name: Seq<char>) -> Option<RateLimiter> {
    let i = find_endpoint(entries, name);
    if i >= 0 { Some(entries[i].limiter) } else { None }
}

/// A collection of limiters, one per endpoint name.
pub struct EndpointRateLimiter {
    limiters: Vec<EndpointLimit>,
}

impl EndpointRateLimiter {
    pub closed spec fn entries(&self) -> Seq<EndpointLimit> {
        self.limiters@
    }

    /// The limiter for `name`, if one is configured.
    pub open spec fn limiter_for(&self, name: Seq<char>) -> Option<RateLimiter> {
        limiter_for_in(self.entries(), name)
    }

    /// Creates a collection with no limits.
    pub fn new() -> (e: Self)
        ensures
            forall|name: Seq<char>| #[trigger] e.limiter_for(name) is None,
    {
        let e = EndpointRateLimiter { limiters: Vec::new() };
        assert forall|name: Seq<char>| #[trigger] e.limiter_for(name) is None by {
            assert(find_endpoint(e.entries(), name) == -1);
        }
        e
    }

    /// The position of the limiter for `name`.
    fn position(&self, name: &str) -> (r: Option<usize>)
        ensures
            match r {
                Some(i) => find_endpoint(self.entries(), name@) == i as int,
                None => find_endpoint(self.entries(), name@) == -1,
            },
    {
        let mut i: usize = 0;
        while i < self.limiters.len()
            invariant
                i <= self.limiters.len(),
                find_endpoint(self.entries().take(i as int), name@) == -1,
            decreases self.limiters.len() - i,
        {
            assert(self.entries().take(i + 1).drop_last() == self.entries().take(i as int));
            if str_eq(self.limiters[i].endpoint.as_str(), name) {
                assert(find_endpoint(self.entries().take(i + 1), name@) == i);
                proof {
                    lemma_find_prefix(self.entries(), name@, i + 1);
                }
                return Some(i);
            }
            i += 1;
        }
        assert(self.entries().take(self.limiters.len() as int) == self.entries());
        None
    }

    /// Adds or replaces limits: each `(endpoint, max_requests, window_seconds)`
    /// installs a fresh limiter for that endpoint; for a name given more than
    /// once the last one counts. Endpoints not named keep their limiter.
    pub fn with_limits(self, limits: Vec<(&str, usize, u64)>) -> (e: Self)
        ensures
            forall|name: Seq<char>|
                #![trigger e.limiter_for(name)]
                if last_limit(limits@, name, limits@.len() as int) >= 0 {
                    let j = last_limit(limits@, name, limits@.len() as int);
                    e.limiter_for(name) matches Some(l) && l.is_fresh(limits@[j].1, limits@[j].2)
                } else {
                    e.limiter_for(name) == self.limiter_for(name)
                },
    {
        let mut cur = self;
        let mut j: usize = 0;
        while j < limits.len()
            invariant
                j <= limits.len(),
                forall|name: Seq<char>|
                    #![trigger cur.limiter_for(name)]
                    if last_limit(limits@, name, j as int) >= 0 {
                        let k = last_limit(limits@, name, j as int);
                        cur.limiter_for(name) matches Some(l) && l.is_fresh(limits@[k].1, limits@[k].2)
                    } else {
                        cur.limiter_for(name) == self.limiter_for(name)
                    },
            decreases limits.len() - j,
        {
            let (ep, max, win) = limits[j];
            let fresh = EndpointLimit { endpoint: String::from_str(ep), limiter: RateLimiter::new(max, win) };
            let ghost before = cur.entries();
            let ghost old_cur = cur;
            let ghost fresh_limiter = fresh.limiter;
            proof {
                lemma_find_bounds(before, ep@);
            }
            match cur.position(ep) {
                Some(i) => {
                    cur.limiters.set(i, fresh);
                    proof {
                        assert forall|name: Seq<char>|
                            find_endpoint(cur.entries(), name) == find_endpoint(before, name) by {
                            lemma_find_same_names(before, cur.entries(), name);
                        }
                        assert(find_endpoint(cur.entries(), ep@) == i);
                        assert(cur.entries()[i as int].limiter == fresh_limiter);
                        assert forall|name: Seq<char>| name != ep@ implies cur.limiter_for(name)
                            == limiter_for_in(before, name) by {
                            lemma_find_bounds(before, name);
                        }
                    }
                },
                None => {
                    cur.limiters.push(fresh);
                    proof {
                        assert(cur.entries().drop_last() == before);
                        assert(cur.entries().last().endpoint@ == ep@);
                        assert(find_endpoint(cur.entries(), ep@) == before.len());
                        assert forall|name: Seq<char>| name != ep@ implies cur.limiter_for(name)
                            == limiter_for_in(before, name) by {
                            lemma_find_bounds(before, name);
                            if find_endpoint(before, name) >= 0 {
                                assert(cur.entries()[find_endpoint(before, name)] == before[find_endpoint(
                                    before,
                                    name,
                                )]);
                            }
                        }
                    }
                },
            }
            proof {
                assert(cur.limiter_for(ep@) == Some(fresh_limiter));
                assert forall|name: Seq<char>|
                    #![trigger cur.limiter_for(name)]
                    (if last_limit(limits@, name, j + 1) >= 0 {
                        let k = last_limit(limits@, name, j + 1);
                        cur.limiter_for(name) matches Some(l) && l.is_fresh(limits@[k].1, limits@[k].2)
                    } else {
                        cur.limiter_for(name) == self.limiter_for(name)
                    }) by {
                    lemma_last_limit_bounds(limits@, name, j + 1);
                    if name == ep@ {
                        assert(last_limit(limits@, name, j + 1) == j);
                        assert(limits@[j as int].0 == ep);
                    } else {
                        assert(last_limit(limits@, name, j + 1) == last_limit(limits@, name, j as int));
                        assert(old_cur.limiter_for(name) == limiter_for_in(before, name));
                    }
                }
            }
            j += 1;
        }
        cur
    }

    /// Decides a request from `ip` to `endpoint` at time `now` (nanoseconds on
    /// the clock of that endpoint's limiter). Without a limit for the endpoint
    /// the request is allowed and nothing changes; otherwise the endpoint's
    /// limiter decides as `RateLimiter::check_rate_limit_at` does and the other
    /// endpoints keep their limiters.
    pub fn check_endpoint_limit_at(&mut self, endpoint: &str, ip: ClientIp, now: u128) -> (r: Result<
        (),
        RateLimited,
    >)
        ensures
            match old(self).limiter_for(endpoint@) {
                None => r is Ok && final(self).entries() == old(self).entries(),
                Some(l) => {
                    &&& r == decide(l.times(ip), now, l.window_nanos(), l.max_requests()).0
                    &&& final(self).limiter_for(endpoint@) matches Some(l2) && l2.times(ip) == decide(
                        l.times(ip),
                        now,
                        l.window_nanos(),
                        l.max_requests(),
                    ).1 && l2.max_requests() == l.max_requests() && l2.window_nanos() == l.window_nanos()
                        && (forall|other: ClientIp|
                        other != ip ==> #[trigger] l2.times(other) == l.times(other))
                },
            },
            forall|name: Seq<char>|
                name != endpoint@ ==> #[trigger] final(self).limiter_for(name) == old(self).limiter_for(name),
    {
        match self.position(endpoint) {
            None => Ok(()),
            Some(i) => {
                let ghost before = self.entries();
                proof {
                    lemma_find_bounds(before, endpoint@);
                }
                let mut e = self.limiters.remove(i);
                let r = e.limiter.check_rate_limit_at(ip, now);
                self.limiters.insert(i, e);
                proof {
                    assert(self.entries() =~= before.update(i as int, e));
                    assert forall|name: Seq<char>|
                        find_endpoint(self.entries(), name) == find_endpoint(before, name) by {
                        lemma_find_same_names(before, self.entries(), name);
                    }
                    assert forall|name: Seq<char>| name != endpoint@ implies #[trigger] self.limiter_for(name)
                        == old(self).limiter_for(name) by {
                        lemma_find_bounds(before, name);
                        if find_endpoint(before, name) >= 0 {
                            assert(find_endpoint(before, name) != i);
                        }
                    }
                }
                r
            },
        }
    }

    /// Decides a request from `ip` to `endpoint`, reading the clock of the
    /// endpoint's limiter; as `check_endpoint_limit_at` for the time read.
    pub fn check_endpoint_limit(&mut self, endpoint: &str, ip: ClientIp) -> (r: Result<
        (),
        RateLimited,
    >)
        ensures
            match old(self).limiter_for(endpoint@) {
                None => r is Ok && final(self).entries() == old(self).entries(),
                Some(l) => exists|now: u128|
                    {
                        &&& r == decide(l.times(ip), now, l.window_nanos(), l.max_requests()).0
                        &&& #[trigger] final(self).limiter_for(endpoint@) matches Some(l2) && l2.times(ip)
                            == decide(l.times(ip), now, l.window_nanos(), l.max_requests()).1
                    },
            },
            forall|name: Seq<char>|
                name != endpoint@ ==> #[trigger] final(self).limiter_for(name) == old(self).limiter_for(name),
    {
        match self.position(endpoint) {
            None => Ok(()),
            Some(i) => {
                proof {
                    lemma_find_bounds(self.entries(), endpoint@);
                }
                let now = nanos_since(&self.limiters[i].limiter.origin);
                self.check_endpoint_limit_at(endpoint, ip, now)
            },
        }
    }

    /// Cleans up every endpoint's limiter, each reading its own clock.
    pub fn cleanup_all(&mut self)
        ensures
            forall|name: Seq<char>|
                #![trigger final(self).limiter_for(name)]
                match old(self).limiter_for(name) {
                    None => final(self).limiter_for(name) is None,
                    Some(l) => final(self).limiter_for(name) matches Some(l2) && l2.max_requests()
                        == l.max_requests() && l2.window_nanos() == l.window_nanos() && exists|now: u128|
                        #[trigger] l2.is_cleanup_of(&l, now),
                },
    {
        let ghost start = self.entries();
        let mut i: usize = 0;
        while i < self.limiters.len()
            invariant
                i <= self.limiters.len(),
                self.entries().len() == start.len(),
                forall|k: int|
                    0 <= k < start.len() ==> (#[trigger] self.entries()[k]).endpoint@ == start[k].endpoint@,
                forall|k: int|
                    #![trigger self.entries()[k]]
                    0 <= k < i ==> {
                        let l = start[k].limiter;
                        let l2 = self.entries()[k].limiter;
                        l2.max_requests() == l.max_requests() && l2.window_nanos() == l.window_nanos()
                            && exists|now: u128| #[trigger] l2.is_cleanup_of(&l, now)
                    },
                forall|k: int| i <= k < start.len() ==> #[trigger] self.entries()[k] == start[k],
            decreases self.limiters.len() - i,
        {
            let ghost before = self.entries();
            let mut e = self.limiters.remove(i);
            e.limiter.cleanup_old_entries();
            self.limiters.insert(i, e);
            assert(self.entries() =~= before.update(i as int, e));
            i += 1;
        }
        proof {
            assert forall|name: Seq<char>| find_endpoint(self.entries(), name) == find_endpoint(start, name) by {
                lemma_find_same_names(start, self.entries(), name);
            }
            assert forall|name: Seq<char>|
                #![trigger self.limiter_for(name)]
                match old(self).limiter_for(name) {
                    None => self.limiter_for(name) is None,
                    Some(l) => self.limiter_for(name) matches Some(l2) && l2.max_requests()
                        == l.max_requests() && l2.window_nanos() == l.window_nanos() && exists|now: u128|
                        #[trigger] l2.is_cleanup_of(&l, now),
                } by {
                lemma_find_bounds(start, name);
            }
        }
    }
}

impl Default for EndpointRateLimiter {
    fn default() -> (e: Self)
        ensures
            forall|name: Seq<char>| #[trigger] e.limiter_for(name) is None,
    {
        EndpointRateLimiter::new()
    }
}

/// `last_limit` gives -1 or a position before `upto`.
proof fn lemma_last_limit_bounds(limits: Seq<(&str, usize, u64)>, name: Seq<char>, upto: int)
    requires
        0 <= upto <= limits.len(),
    ensures
        -1 <= last_limit(limits, name, upto) < upto,
    decreases upto,
{
    if upto > 0 {
        lemma_last_limit_bounds(limits, name, upto - 1);
    }
}

/// `find_endpoint` gives -1 or a position holding `name`.
proof fn lemma_find_bounds(s: Seq<EndpointLimit>, name: Seq<char>)
    ensures
        -1 <= find_endpoint(s, name) < s.len(),
        find_endpoint(s, name) >= 0 ==> s[find_endpoint(s, name)].endpoint@ == name,
    decreases s.len(),
{
    if s.len() > 0 {
        lemma_find_bounds(s.drop_last(), name);
        if find_endpoint(s.drop_last(), name) >= 0 {
            assert(s[find_endpoint(s, name)] == s.drop_last()[find_endpoint(s, name)]);
        }
    }
}

/// `find_endpoint` looks at the names alone.
proof fn lemma_find_same_names(s1: Seq<EndpointLimit>, s2: Seq<EndpointLimit>, name: Seq<char>)
    requires
        s1.len() == s2.len(),
        forall|k: int| 0 <= k < s1.len() ==> (#[trigger] s1[k]).endpoint@ == s2[k].endpoint@,
    ensures
        find_endpoint(s1, name) == find_endpoint(s2, name),
    decreases s1.len(),
{
    if s1.len() > 0 {
        assert forall|k: int| 0 <= k < s1.drop_last().len() implies (#[trigger] s1.drop_last()[k]).endpoint@
            == s2.drop_last()[k].endpoint@ by {
            assert(s1.drop_last()[k] == s1[k]);
            assert(s2.drop_last()[k] == s2[k]);
        }
        lemma_find_same_names(s1.drop_last(), s2.drop_last(), name);
    }
}

/// A position found in a prefix is the position found in the whole sequence.
proof fn lemma_find_prefix(s: Seq<EndpointLimit>, name: Seq<char>, n: int)
    requires
        0 <= n <= s.len(),
        find_endpoint(s.take(n), name) >= 0,
    ensures
        find_endpoint(s, name) == find_endpoint(s.take(n), name),
    decreases s.len() - n,
{
    if n < s.len() {
        assert(s.take(n + 1).drop_last() == s.take(n));
        lemma_find_prefix(s, name, n + 1);
    } else {
        assert(s.take(n) == s);
    }
}

// ---------------------------------------------------------------------------
// Configuration
// ---------------------------------------------------------------------------

/// The global limit: at most `max_requests` requests (1000 when not
/// configured) per window of `window_seconds` seconds (60 when not
/// configured), per client address.
pub fn global_limits(max_requests: Option<usize>, window_seconds: Option<u64>) -> (r: (usize, u64))
    ensures
        r.0 == match max_requests {
            Some(m) => m,
            None => 1000usize,
        },
        r.1 == match window_seconds {
            Some(w) => w,
            None => 60u64,
        },
{
    let m: usize = match max_requests {
        Some(m) => m,
        None => 1000,
    };
    let w: u64 = match window_seconds {
        Some(w) => w,
        None => 60,
    };
    (m, w)
}

/// A cleanup interval in seconds: the configured one (`default` when none
/// is), kept within 60..=3600.
pub open spec fn cleanup_interval_for(configured: Option<u64>, default: u64) -> u64 {
    let c = match configured {
        Some(v) => v,
        None => default,
    };
    if c < 60 {
        60
    } else if c > 3600 {
        3600
    } else {
        c
    }
}

/// How often, in seconds, the global limiter forgets stale addresses: the
/// configured interval (600 when none is), kept within 60..=3600.
pub fn global_cleanup_interval_secs(configured: Option<u64>) -> (r: u64)
    ensures
        r == cleanup_interval_for(configured, 600),
{
    let c: u64 = match configured {
        Some(v) => v,
        None => 600,
    };
    if c < 60 {
        60
    } else if c > 3600 {
        3600
    } else {
        c
    }
}

/// How often, in seconds, the per-endpoint limiters forget stale addresses:
/// the configured interval (300 when none is), kept within 60..=3600.
pub fn endpoint_cleanup_interval_secs(configured: Option<u64>) -> (r: u64)
    ensures
        r == cleanup_interval_for(configured, 300),
{
    let c: u64 = match configured {
        Some(v) => v,
        None => 300,
    };
    if c < 60 {
        60
    } else if c > 3600 {
        3600
    } else {
        c
    }
}

/// The per-endpoint limits every application state starts with: 60 scan
/// creations, 600 searches, 120 drive listings and 30 move operations per
/// address and minute.
pub fn state_endpoint_limits() -> (r: Vec<(&'static str, usize, u64)>)
    ensures
        r@.len() == 4,
        r@[0].0@ == "/scans"@ && r@[0].1 == 60 && r@[0].2 == 60,
        r@[1].0@ == "/scans/:id/search"@ && r@[1].1 == 600 && r@[1].2 == 60,
        r@[2].0@ == "/drives"@ && r@[2].1 == 120 && r@[2].2 == 60,
        r@[3].0@ == "/paths/move"@ && r@[3].1 == 30 && r@[3].2 == 60,
{
    let mut v: Vec<(&'static str, usize, u64)> = Vec::new();
    v.push(("/scans", 60, 60));
    v.push(("/scans/:id/search", 600, 60));
    v.push(("/drives", 120, 60));
    v.push(("/paths/move", 30, 60));
    v
}

/// The per-endpoint limits the server sets at start-up over those of the
/// application state: 30 scan creations and 10 move operations per address
/// and minute.
pub fn startup_endpoint_limits() -> (r: Vec<(&'static str, usize, u64)>)
    ensures
        r@.len() == 2,
        r@[0].0@ == "/scans"@ && r@[0].1 == 30 && r@[0].2 == 60,
        r@[1].0@ == "/paths/move"@ && r@[1].1 == 10 && r@[1].2 == 60,
{
    let mut v: Vec<(&'static str, usize, u64)> = Vec::new();
    v.push(("/scans", 30, 60));
    v.push(("/paths/move", 10, 60));
    v
}


} // verus!
