//! Histories of admission checks on an in-process limiter, and what holds of
//! every history: clients are isolated from each other, each client is held
//! to the configured rate, and without refill a client gets exactly its
//! capacity.

use crate::bucket::femtos;
use crate::bucket::BucketState;
use crate::bucket::FEMTOS_PER_TOKEN;
use crate::limiter::lemma_decide_keeps_policy;
use crate::limiter::LimiterState;
use crate::runs::admitted;
use crate::runs::latest;
use crate::runs::law_admissions_within_rate;
use crate::runs::law_exact_without_refill;
use crate::runs::run;
use vstd::prelude::*;

verus! {

/// One admission check: the client and the time.
pub struct Check {
    pub client: Seq<char>,
    pub at: nat,
}

/// The state of a limiter after the given checks, one after the other.
pub open spec fn replay(start: LimiterState, checks: Seq<Check>) -> LimiterState
    decreases checks.len(),
{
    if checks.len() == 0 {
        start
    } else {
        replay(start, checks.drop_last()).decide(checks.last().client, checks.last().at)
    }
}

/// How many of the given checks are checks of `client` that are allowed.
pub open spec fn granted(start: LimiterState, checks: Seq<Check>, client: Seq<char>) -> nat
    decreases checks.len(),
{
    if checks.len() == 0 {
        0
    } else {
        let earlier = granted(start, checks.drop_last(), client);
        let last = checks.last();
        if last.client == client && replay(start, checks.drop_last()).report(
            client,
            last.at,
        ).allowed {
            earlier + 1
        } else {
            earlier
        }
    }
}

/// The times of the checks of `client` among the given checks, in order.
pub open spec fn times_of(checks: Seq<Check>, client: Seq<char>) -> Seq<nat>
    decreases checks.len(),
{
    if checks.len() == 0 {
        Seq::empty()
    } else if checks.last().client == client {
        times_of(checks.drop_last(), client).push(checks.last().at)
    } else {
        times_of(checks.drop_last(), client)
    }
}

/// A history keeps the policy, and keeps a limiter's buckets on it.
pub proof fn lemma_replay_keeps_policy(start: LimiterState, checks: Seq<Check>)
    ensures
        replay(start, checks).capacity == start.capacity,
        replay(start, checks).rate == start.rate,
        start.wf() ==> replay(start, checks).wf(),
    decreases checks.len(),
{
    if checks.len() > 0 {
        lemma_replay_keeps_policy(start, checks.drop_last());
        if start.wf() {
            lemma_decide_keeps_policy(
                replay(start, checks.drop_last()),
                checks.last().client,
                checks.last().at,
            );
        }
    }
}

/// Isolation of two checks: a check of one client changes neither the bucket
/// that a check of another client finds nor what that check reports, and the
/// two checks leave the same state in either order.
pub proof fn law_checks_of_two_clients_commute(
    state: LimiterState,
    one: Check,
    other: Check,
)
    requires
        one.client != other.client,
    ensures
        state.decide(one.client, one.at).bucket(other.client, other.at) == state.bucket(
            other.client,
            other.at,
        ),
        state.decide(one.client, one.at).report(other.client, other.at) == state.report(
            other.client,
            other.at,
        ),
        state.decide(one.client, one.at).decide(other.client, other.at) == state.decide(
            other.client,
            other.at,
        ).decide(one.client, one.at),
{
    let left = state.decide(one.client, one.at).decide(other.client, other.at);
    let right = state.decide(other.client, other.at).decide(one.client, one.at);
    assert(left.buckets =~= right.buckets);
}

/// Isolation over histories: whatever checks of other clients are
/// interleaved, the bucket of a client after a history is the one that the
/// client's own checks alone lead to. Before the client's first check it is
/// as it was at the start; from then on it is the bucket found at the first
/// check, run through the client's own checks, and the admissions granted to
/// the client are those of that run.
pub proof fn law_clients_are_isolated(start: LimiterState, checks: Seq<Check>, client: Seq<char>)
    ensures
        times_of(checks, client).len() == 0 ==> {
            &&& replay(start, checks).buckets.contains_key(client) == start.buckets.contains_key(
                client,
            )
            &&& forall|now: nat|
                replay(start, checks).bucket(client, now) == start.bucket(client, now)
            &&& granted(start, checks, client) == 0
        },
        times_of(checks, client).len() > 0 ==> {
            let own = times_of(checks, client);
            let found = start.bucket(client, own[0]);
            &&& replay(start, checks).buckets.contains_key(client)
            &&& replay(start, checks).buckets[client] == run(found, own)
            &&& granted(start, checks, client) == admitted(found, own)
        },
    decreases checks.len(),
{
    if checks.len() > 0 {
        let earlier = checks.drop_last();
        let last = checks.last();
        law_clients_are_isolated(start, earlier, client);
        let before = replay(start, earlier);
        if last.client == client {
            let own = times_of(checks, client);
            let own_earlier = times_of(earlier, client);
            assert(own.drop_last() =~= own_earlier);
            let found = start.bucket(client, own[0]);
            if own_earlier.len() == 0 {
                assert(run(found, own.drop_last()) == found);
                assert(admitted(found, own.drop_last()) == 0);
            } else {
                assert(own[0] == own_earlier[0]);
            }
            assert(before.bucket(client, last.at) == run(found, own.drop_last()));
        }
    }
}

/// The limit of a bucket that was just made is the number of whole tokens
/// in it.
proof fn lemma_full_bucket_holds_limit(capacity: nat, rate: nat, now: nat)
    ensures
        BucketState::full(capacity, rate, now).remaining() == BucketState::full(
            capacity,
            rate,
            now,
        ).limit(),
        BucketState::full(capacity, rate, now).wf(),
{
}

/// Without refill, a client that the limiter has not seen before is granted
/// exactly as many of its checks as the limit says, or all of them if they
/// are fewer, and the rest are rejected: at whatever times the checks come,
/// and however the checks of other clients are interleaved.
pub proof fn law_new_client_gets_exactly_its_limit(
    start: LimiterState,
    checks: Seq<Check>,
    client: Seq<char>,
)
    requires
        start.rate == 0,
        !start.buckets.contains_key(client),
    ensures
        granted(start, checks, client) == if times_of(checks, client).len() <= start.limit() {
            times_of(checks, client).len()
        } else {
            start.limit()
        },
{
    law_clients_are_isolated(start, checks, client);
    let own = times_of(checks, client);
    if own.len() > 0 {
        let found = start.bucket(client, own[0]);
        lemma_full_bucket_holds_limit(start.capacity, start.rate, own[0]);
        law_exact_without_refill(found, own);
    }
}

/// The rate bound for each client: over any history from a valid state, the
/// admissions granted to a client never exceed the whole tokens in the
/// capacity plus what the configured rate yields between the time of the
/// bucket found at the client's first check and the latest of its checks.
pub proof fn law_client_stays_within_rate(
    start: LimiterState,
    checks: Seq<Check>,
    client: Seq<char>,
)
    requires
        start.wf(),
        times_of(checks, client).len() > 0,
    ensures
        ({
            let own = times_of(checks, client);
            let found = start.bucket(client, own[0]);
            &&& latest(found.last_refill, own) >= found.last_refill
            &&& granted(start, checks, client) <= (femtos(start.capacity) + (latest(
                found.last_refill,
                own,
            ) - found.last_refill) * start.rate) / (FEMTOS_PER_TOKEN as int)
        }),
{
    law_clients_are_isolated(start, checks, client);
    let own = times_of(checks, client);
    let found = start.bucket(client, own[0]);
    lemma_full_bucket_holds_limit(start.capacity, start.rate, own[0]);
    law_admissions_within_rate(found, own);
}

} // verus!
