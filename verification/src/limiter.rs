//! Limiters: the capability that decides whether a client's request is
//! admitted, and the in-process limiter that keeps one bucket per client.

use crate::bucket::lemma_consume_keeps_policy;
use crate::bucket::BucketState;
use crate::bucket::TokenBucket;
use crate::bucket::MICROS_PER_TOKEN;
use crate::clock::Clock;
use dashmap::DashMap;
use vstd::prelude::*;

verus! {

/// The result of one admission check.
#[derive(Clone, Copy, Debug, PartialEq, Eq, Structural)]
pub struct Decision {
    /// Whether the request is admitted.
    pub allowed: bool,
    /// The bucket's capacity in whole requests.
    pub limit: u64,
    /// Whole tokens left after the decision.
    pub remaining: u64,
    /// Seconds until the bucket is full again, rounded up.
    pub reset_seconds: u64,
}

/// A decision as mathematical values.
pub struct Report {
    pub allowed: bool,
    pub limit: nat,
    pub remaining: nat,
    pub reset_seconds: nat,
}

impl View for Decision {
    type V = Report;

    open spec fn view(&self) -> Report {
        Report {
            allowed: self.allowed,
            limit: self.limit as nat,
            remaining: self.remaining as nat,
            reset_seconds: self.reset_seconds as nat,
        }
    }
}

impl BucketState {
    /// What an admission check at time `now` reports of this bucket.
    pub open spec fn report(self, now: nat) -> Report {
        Report {
            allowed: self.refill(now).admits(),
            limit: self.limit(),
            remaining: self.consume(now).remaining(),
            reset_seconds: self.consume(now).reset_seconds(),
        }
    }
}

/// The buckets of a limiter that has seen no client.
pub open spec fn no_buckets() -> Map<Seq<char>, BucketState> {
    Map::empty()
}

/// The mathematical state of an in-process limiter: the policy that all its
/// clients share, and the bucket of each client seen so far.
pub struct LimiterState {
    /// Capacity of every bucket, in micro-tokens.
    pub capacity: nat,
    /// Refill rate of every bucket, in micro-tokens per second.
    pub rate: nat,
    /// The buckets, by client identity.
    pub buckets: Map<Seq<char>, BucketState>,
}

impl LimiterState {
    /// A limiter that has seen no client.
    pub open spec fn empty(capacity: nat, rate: nat) -> LimiterState {
        LimiterState { capacity, rate, buckets: no_buckets() }
    }

    /// The advertised request limit: the capacity rounded down to whole
    /// tokens.
    pub open spec fn limit(self) -> nat {
        self.capacity / (MICROS_PER_TOKEN as nat)
    }

    /// Every bucket follows the shared policy and is within its capacity.
    pub open spec fn wf(self) -> bool {
        forall|client: Seq<char>| #[trigger]
            self.buckets.contains_key(client) ==> {
                &&& self.buckets[client].wf()
                &&& self.buckets[client].capacity == self.capacity
                &&& self.buckets[client].rate == self.rate
            }
    }

    /// The bucket that a check at time `now` finds for `client`: the one
    /// kept for it, or a full one made at `now` when the client is new.
    pub open spec fn bucket(self, client: Seq<char>, now: nat) -> BucketState {
        if self.buckets.contains_key(client) {
            self.buckets[client]
        } else {
            BucketState::full(self.capacity, self.rate, now)
        }
    }

    /// The state after the limiter has looked up `client` at time `now`.
    pub open spec fn seen(self, client: Seq<char>, now: nat) -> LimiterState {
        LimiterState { buckets: self.buckets.insert(client, self.bucket(client, now)), ..self }
    }

    /// The state after one admission check for `client` at time `now`.
    pub open spec fn decide(self, client: Seq<char>, now: nat) -> LimiterState {
        LimiterState {
            buckets: self.buckets.insert(client, self.bucket(client, now).consume(now)),
            ..self
        }
    }

    /// What one admission check for `client` at time `now` reports.
    pub open spec fn report(self, client: Seq<char>, now: nat) -> Report {
        self.bucket(client, now).report(now)
    }
}

/// An admission check keeps a limiter's buckets on the shared policy and
/// within their capacity.
pub proof fn lemma_decide_keeps_policy(state: LimiterState, client: Seq<char>, now: nat)
    requires
        state.wf(),
    ensures
        state.decide(client, now).wf(),
        state.decide(client, now).capacity == state.capacity,
        state.decide(client, now).rate == state.rate,
{
    lemma_consume_keeps_policy(state.bucket(client, now), now);
}

/// A limiter decides, for a client identity, whether one more request is
/// admitted.
pub trait RateLimiter {
    /// Whether a check for `client` in this state may answer `decision` and
    /// leave the limiter in the state `next`.
    spec fn may_decide(&self, client: Seq<char>, decision: Decision, next: &Self) -> bool;

    /// One admission check for the client `client_id`.
    fn is_allowed(&mut self, client_id: &str) -> (decision: Decision)
        ensures
            old(self).may_decide(client_id@, decision, final(self)),
            decision.remaining <= decision.limit,
    ;
}

#[verifier::external_type_specification]
#[verifier::external_body]
#[verifier::reject_recursive_types(K)]
#[verifier::reject_recursive_types(V)]
#[verifier::reject_recursive_types(S)]
pub struct ExDashMap<K, V, S>(DashMap<K, V, S>);

/// The buckets that a store holds, by client identity: the keys of the map
/// as sequences of characters, each with the state of the bucket under it.
pub uninterp spec fn store_buckets(store: DashMap<String, TokenBucket>) -> Map<Seq<char>, BucketState>;

/// `DashMap::new` makes a map that holds nothing.
#[verifier::external_body]
fn store_new() -> (store: DashMap<String, TokenBucket>)
    ensures
        store_buckets(store) == no_buckets(),
{
    DashMap::new()
}

/// `DashMap::get` finds the entry of a key, if the map holds one. The bucket
/// in it is copied out and the entry is let go before the call returns, so
/// no reference into the map outlives it.
#[verifier::external_body]
fn store_get(store: &DashMap<String, TokenBucket>, client: &str) -> (found: Option<TokenBucket>)
    ensures
        found.is_some() == store_buckets(*store).contains_key(client@),
        found matches Some(bucket) ==> bucket@ == store_buckets(*store)[client@],
{
    match store.get(client) {
        Some(entry) => Some(*entry.value()),
        None => None,
    }
}

/// `DashMap::insert` puts a value under a key, in place of the value that the
/// key had, if any, and leaves every other key as it was. The map itself
/// would let any holder of a shared reference insert; this library changes a
/// store only through an exclusive one, so that what a store holds is a
/// function of its value.
#[verifier::external_body]
fn store_insert(store: &mut DashMap<String, TokenBucket>, client: String, bucket: TokenBucket)
    ensures
        store_buckets(*final(store)) == store_buckets(*old(store)).insert(client@, bucket@),
{
    store.insert(client, bucket);
}

/// In-process limiter: one bucket per client, all with the same capacity and
/// refill rate, and a clock of its own.
pub struct InProcLimiter {
    map: DashMap<String, TokenBucket>,
    capacity: u64,
    refill_rate: u64,
    clock: Clock,
}

impl View for InProcLimiter {
    type V = LimiterState;

    closed spec fn view(&self) -> LimiterState {
        LimiterState {
            capacity: self.capacity as nat,
            rate: self.refill_rate as nat,
            buckets: store_buckets(self.map),
        }
    }
}

impl InProcLimiter {
    /// A limiter that has seen no client, whose buckets hold `capacity`
    /// micro-tokens and refill by `refill_rate` micro-tokens each second.
    pub fn new(capacity: u64, refill_rate: u64) -> (limiter: Self)
        ensures
            limiter@ == LimiterState::empty(capacity as nat, refill_rate as nat),
            limiter@.wf(),
    {
        InProcLimiter { map: store_new(), capacity, refill_rate, clock: Clock::new() }
    }

    /// The bucket of `client`, made full at `now` and stored if the client is
    /// new.
    fn get_bucket(&mut self, client: &str, now: u64) -> (bucket: TokenBucket)
        ensures
            bucket@ == old(self)@.bucket(client@, now as nat),
            final(self)@ == old(self)@.seen(client@, now as nat),
    {
        match store_get(&self.map, client) {
            Some(bucket) => {
                assert(self@.buckets =~= old(self)@.seen(client@, now as nat).buckets);
                bucket
            },
            None => {
                let bucket = TokenBucket::new(self.capacity, self.refill_rate, now);
                store_insert(&mut self.map, client.to_owned(), bucket);
                bucket
            },
        }
    }

    /// One admission check for `client_id` at time `now`, in nanoseconds on
    /// the clock that all calls share.
    pub fn is_allowed_at(&mut self, client_id: &str, now: u64) -> (decision: Decision)
        ensures
            final(self)@ == old(self)@.decide(client_id@, now as nat),
            decision@ == old(self)@.report(client_id@, now as nat),
            decision.remaining <= decision.limit,
            ({
                let kept = final(self)@.buckets[client_id@];
                decision.reset_seconds == 0 <==> kept.level >= kept.brim()
            }),
            old(self)@.wf() ==> final(self)@.wf() && decision.limit == old(self)@.limit(),
    {
        proof {
            if self@.wf() {
                lemma_decide_keeps_policy(self@, client_id@, now as nat);
            }
        }
        let mut bucket = self.get_bucket(client_id, now);
        let limit = bucket.limit();
        let (allowed, remaining, reset_seconds) = bucket.try_consume(now);
        store_insert(&mut self.map, client_id.to_owned(), bucket);
        assert(self@.buckets =~= old(self)@.decide(client_id@, now as nat).buckets);
        Decision { allowed, limit, remaining, reset_seconds }
    }
}

impl RateLimiter for InProcLimiter {
    /// A check at some reading of the limiter's clock.
    open spec fn may_decide(&self, client: Seq<char>, decision: Decision, next: &Self) -> bool {
        exists|now: nat|
            {
                &&& now <= u64::MAX
                &&& next@ == #[trigger] self@.decide(client, now)
                &&& decision@ == self@.report(client, now)
            }
    }

    /// One admission check for `client_id`, at the time that the limiter's
    /// clock shows.
    fn is_allowed(&mut self, client_id: &str) -> (decision: Decision)
        ensures
            old(self)@.wf() ==> final(self)@.wf() && decision.limit == old(self)@.limit(),
    {
        let now = self.clock.now();
        self.is_allowed_at(client_id, now)
    }
}

} // verus!
