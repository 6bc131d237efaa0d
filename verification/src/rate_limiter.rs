//! A leaky bucket for each client identity: every request adds one to the
//! identity's counter, and the counters leak at a fixed rate.

use vstd::prelude::*;
use std::collections::HashMap;
use crate::error_handling::{AppError, StatusCode};
use crate::ip_prefix::{lemma_key_injective, IpPrefix};

verus! {

/// How many times a day the counters leak.
pub const DECAY_PERIODS_PER_DAY: u64 = 96;

/// The counter of an identity: zero where the table has no entry for it.
pub open spec fn count_in(m: Map<IpPrefix, u64>, id: IpPrefix) -> u64 {
    if m.contains_key(id) {
        m[id]
    } else {
        0
    }
}

/// One more, but never past the largest counter.
pub open spec fn bump(c: u64) -> u64 {
    if c < u64::MAX {
        (c + 1) as u64
    } else {
        c
    }
}

/// The table after one request of `id`: the counter is read or begun at
/// zero, and one is added, whether or not the request is admitted.
pub open spec fn after_request(m: Map<IpPrefix, u64>, id: IpPrefix) -> Map<IpPrefix, u64> {
    m.insert(id, bump(count_in(m, id)))
}

/// Whether the next request of `id` is admitted: its counter, the request
/// itself counted, does not exceed the limit.
pub open spec fn admits(m: Map<IpPrefix, u64>, id: IpPrefix, limit: u64) -> bool {
    bump(count_in(m, id)) <= limit
}

/// The table after `n` requests in a row of `id`.
pub open spec fn after_requests(m: Map<IpPrefix, u64>, id: IpPrefix, n: nat) -> Map<
    IpPrefix,
    u64,
>
    decreases n,
{
    if n == 0 {
        m
    } else {
        after_request(after_requests(m, id, (n - 1) as nat), id)
    }
}

/// The table after one leak of `step`: every counter is lowered by `step`,
/// and the entries that would reach zero are gone.
pub open spec fn after_decay(m: Map<IpPrefix, u64>, step: u64) -> Map<IpPrefix, u64> {
    Map::new(|p: IpPrefix| m.contains_key(p) && m[p] > step, |p: IpPrefix| (m[p] - step) as u64)
}

/// By how much the counters leak each period: the given fraction of the
/// limit, and at least one.
pub open spec fn decay_step_of(limit: u64, periods: u64) -> u64 {
    if limit / periods >= 1 {
        limit / periods
    } else {
        1
    }
}

/// By how much the counters leak each period: the given fraction of the
/// limit, and at least one.
pub fn decay_step(limit: u64, periods: u64) -> (step: u64)
    requires
        periods > 0,
    ensures
        step == decay_step_of(limit, periods),
        step >= 1,
{
    let share: u64 = limit / periods;
    if share >= 1 {
        share
    } else {
        1
    }
}

/// The request counters of the identities that were active of late.
pub struct RateLimiter {
    limit: u64,
    counts: HashMap<u128, u64>,
}

impl View for RateLimiter {
    type V = Map<IpPrefix, u64>;

    /// The counter of each identity that has an entry.
    closed spec fn view(&self) -> Map<IpPrefix, u64> {
        Map::new(
            |p: IpPrefix| self.counts@.contains_key(p.key()),
            |p: IpPrefix| self.counts@[p.key()],
        )
    }
}

impl RateLimiter {
    /// The most requests that an identity may have on its counter and still
    /// be served.
    pub closed spec fn limit(&self) -> u64 {
        self.limit
    }

    /// An empty table with the given limit for each identity.
    pub fn new(daily_request_limit_per_ip: u64) -> (r: RateLimiter)
        ensures
            r@ == Map::<IpPrefix, u64>::empty(),
            r.limit() == daily_request_limit_per_ip,
    {
        let r = RateLimiter { limit: daily_request_limit_per_ip, counts: HashMap::new() };
        assert(r@ =~= Map::<IpPrefix, u64>::empty());
        r
    }

    /// The limit that the table was made with.
    pub fn daily_limit(&self) -> (l: u64)
        ensures
            l == self.limit(),
    {
        self.limit
    }

    /// The counter of `identity`.
    pub fn count(&self, identity: &IpPrefix) -> (c: u64)
        ensures
            c == count_in(self@, *identity),
    {
        let key = identity.to_key();
        match self.counts.get(&key) {
            Some(c) => *c,
            None => 0,
        }
    }

    /// Whether the table has an entry for `identity`.
    pub fn is_tracked(&self, identity: &IpPrefix) -> (b: bool)
        ensures
            b == self@.contains_key(*identity),
    {
        let key = identity.to_key();
        self.counts.contains_key(&key)
    }

    /// Counts a request of `identity` and says whether it is admitted. The
    /// counter is raised first and compared afterwards, so a rejected request
    /// counts too.
    pub fn admit_request(&mut self, identity: IpPrefix) -> (admitted: bool)
        ensures
            final(self)@ == after_request(old(self)@, identity),
            final(self).limit() == old(self).limit(),
            admitted == admits(old(self)@, identity, old(self).limit()),
    {
        let key = identity.to_key();
        let before: u64 = match self.counts.get(&key) {
            Some(c) => *c,
            None => 0,
        };
        let after: u64 = if before < u64::MAX {
            before + 1
        } else {
            before
        };
        self.counts.insert(key, after);
        proof {
            assert forall|p: IpPrefix| p.key() == key implies p == identity by {
                lemma_key_injective(p, identity);
            }
            assert(self@ =~= after_request(old(self)@, identity));
        }
        after <= self.limit
    }

    /// Lowers every counter by `step` and drops the entries that reach zero.
    pub fn decay(&mut self, step: u64)
        ensures
            final(self)@ == after_decay(old(self)@, step),
            final(self).limit() == old(self).limit(),
    {
        let mut next: HashMap<u128, u64> = HashMap::new();
        for entry in it: self.counts.iter()
            invariant
                forall|i: int|
                    0 <= i < it.seq().len() ==> self.counts@.contains_key(*(#[trigger] it.seq()[i]).0)
                        && self.counts@[*it.seq()[i].0] == *it.seq()[i].1,
                forall|k: u128|
                    self.counts@.contains_key(k) && self.counts@[k] > step ==> #[trigger] next@.contains_key(k)
                        || exists|i: int|
                        it.index() <= i < it.seq().len() && *(#[trigger] it.seq()[i]).0 == k,
                forall|k: u128| #[trigger]
                    next@.contains_key(k) ==> self.counts@.contains_key(k) && self.counts@[k]
                        > step && next@[k] == self.counts@[k] - step,
        {
            let (k, v) = entry;
            let ghost at = it.index() as int;
            let ghost seen = next@;
            if *v > step {
                next.insert(*k, *v - step);
            }
            proof {
                assert forall|q: u128|
                    self.counts@.contains_key(q) && self.counts@[q] > step implies #[trigger] next@.contains_key(q)
                    || exists|i: int|
                    at + 1 <= i < it.seq().len() && *(#[trigger] it.seq()[i]).0 == q by {
                    if !seen.contains_key(q) {
                        let i = choose|i: int|
                            at <= i < it.seq().len() && *(#[trigger] it.seq()[i]).0 == q;
                        if i == at {
                            assert(next@.contains_key(q));
                        } else {
                            assert(at + 1 <= i < it.seq().len() && *it.seq()[i].0 == q);
                        }
                    }
                }
            }
        }
        let ghost before = self@;
        self.counts = next;
        proof {
            assert(self@ =~= after_decay(before, step));
        }
    }
}

/// Custom rate limiting by identity: counts the request and turns a
/// rejection into the error that the client is answered with.
pub fn ip_prefix_ratelimiter(limiter: &mut RateLimiter, identity: IpPrefix) -> (r: Result<
    (),
    AppError,
>)
    ensures
        final(limiter)@ == after_request(old(limiter)@, identity),
        final(limiter).limit() == old(limiter).limit(),
        r is Ok <==> admits(old(limiter)@, identity, old(limiter).limit()),
        r is Err ==> r->Err_0.status_code == StatusCode::TOO_MANY_REQUESTS && r->Err_0.message@
            == "too many requests, come back later"@,
{
    if limiter.admit_request(identity) {
        Ok(())
    } else {
        AppError::err(StatusCode::TOO_MANY_REQUESTS, "too many requests, come back later")
    }
}

/// After `n` requests in a row the counter of the identity stands `n` higher,
/// or at the largest counter, and no other identity's counter has moved.
pub proof fn lemma_count_after_requests(m: Map<IpPrefix, u64>, id: IpPrefix, n: nat)
    ensures
        count_in(after_requests(m, id, n), id) == if count_in(m, id) + n <= u64::MAX {
            count_in(m, id) + n
        } else {
            u64::MAX as int
        },
        forall|other: IpPrefix|
            other != id ==> count_in(#[trigger] after_requests(m, id, n), other) == count_in(
                m,
                other,
            ),
    decreases n,
{
    if n > 0 {
        lemma_count_after_requests(m, id, (n - 1) as nat);
    }
}

/// A request never raises a counter past the limit and is served: a served
/// request leaves the counter at or below the limit.
pub proof fn lemma_admitted_within_limit(m: Map<IpPrefix, u64>, id: IpPrefix, limit: u64)
    requires
        admits(m, id, limit),
    ensures
        count_in(after_request(m, id), id) <= limit,
{
}

/// The boundary of the bucket: of the requests that an identity without
/// history makes in a row, exactly the first `limit` are served, so the
/// request after `limit` served ones is rejected.
pub proof fn lemma_bucket_boundary(m: Map<IpPrefix, u64>, id: IpPrefix, limit: u64, k: nat)
    requires
        count_in(m, id) == 0,
        limit < u64::MAX,
        k >= 1,
    ensures
        admits(after_requests(m, id, (k - 1) as nat), id, limit) <==> k <= limit,
{
    lemma_count_after_requests(m, id, (k - 1) as nat);
}

/// One leak lowers a counter by the step, floored at zero, and an entry at
/// zero is gone.
pub proof fn lemma_count_after_decay(m: Map<IpPrefix, u64>, id: IpPrefix, step: u64)
    ensures
        count_in(after_decay(m, step), id) == if count_in(m, id) > step {
            count_in(m, id) - step
        } else {
            0
        },
        after_decay(m, step).contains_key(id) <==> count_in(m, id) > step,
        after_decay(m, step).contains_key(id) ==> after_decay(m, step)[id] > 0,
{
}

/// Whether a table holds only identities that were active of late: no entry
/// stands at zero.
pub open spec fn only_active(m: Map<IpPrefix, u64>) -> bool {
    forall|p: IpPrefix| m.contains_key(p) ==> #[trigger] m[p] > 0
}

/// The table never records an identity that has cooled down: the empty table
/// holds none, a request enters its identity with a counter of one or more,
/// and a leak drops what reaches zero.
pub proof fn lemma_only_active_identities(m: Map<IpPrefix, u64>, id: IpPrefix, step: u64)
    requires
        only_active(m),
    ensures
        only_active(Map::<IpPrefix, u64>::empty()),
        only_active(after_request(m, id)),
        only_active(after_decay(m, step)),
{
    assert forall|p: IpPrefix| after_request(m, id).contains_key(p) implies #[trigger] after_request(
        m,
        id,
    )[p] > 0 by {
        if p != id {
            assert(m.contains_key(p));
            assert(m[p] > 0);
        }
    }
}

/// What one leak gives back. An identity without history makes `limit + 1`
/// requests, of which the last is rejected, and the counters leak once by
/// `step`. Its counter then stands at `limit + 1 - step`, or at zero, and its
/// `j`-th request from there is served exactly when the counter with `j`
/// added stays within the limit.
pub proof fn lemma_headroom_after_decay(
    m: Map<IpPrefix, u64>,
    id: IpPrefix,
    limit: u64,
    step: u64,
    j: nat,
)
    requires
        count_in(m, id) == 0,
        limit < u64::MAX,
        j >= 1,
    ensures
        ({
            let leaked = after_decay(after_requests(m, id, (limit + 1) as nat), step);
            &&& count_in(leaked, id) == if limit + 1 > step {
                limit + 1 - step
            } else {
                0
            }
            &&& admits(after_requests(leaked, id, (j - 1) as nat), id, limit) <==> count_in(
                leaked,
                id,
            ) + j <= limit
        }),
{
    let full = after_requests(m, id, (limit + 1) as nat);
    lemma_count_after_requests(m, id, (limit + 1) as nat);
    lemma_count_after_decay(full, id, step);
    let leaked = after_decay(full, step);
    lemma_count_after_requests(leaked, id, (j - 1) as nat);
}

/// The leaky bucket boundary with the number of requests that one leak gives
/// back: after `limit` served requests and one rejected, and one leak by
/// `step`, exactly `limit + 1 - step` more requests are served. This holds
/// where the step is half of the limit plus one, and for a limit of zero,
/// where nothing is ever served. For every other limit and step the number is
/// `step - 1`, or `limit` where the step exceeds the counter (see
/// `lemma_headroom_after_decay`).
pub proof fn lemma_admissible_after_one_decay(
    m: Map<IpPrefix, u64>,
    id: IpPrefix,
    limit: u64,
    step: u64,
    j: nat,
)
    requires
        count_in(m, id) == 0,
        limit < u64::MAX,
        2 * step == limit + 2 || (limit == 0 && step >= 1),
        j >= 1,
    ensures
        ({
            let leaked = after_decay(after_requests(m, id, (limit + 1) as nat), step);
            admits(after_requests(leaked, id, (j - 1) as nat), id, limit) <==> j <= limit + 1
                - step
        }),
{
    lemma_headroom_after_decay(m, id, limit, step, j);
}

} // verus!
