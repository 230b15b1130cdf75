//! Runs of admission checks on one bucket, and what holds of every run: the
//! admissions stay within the configured rate over any window, a burst
//! stays within the capacity, and the accounting is exact as long as the
//! capacity cuts no refill short.

use crate::bucket::law_report_bounds;
use crate::bucket::lemma_consume_keeps_policy;
use crate::bucket::BucketState;
use crate::bucket::FEMTOS_PER_TOKEN;
use vstd::prelude::*;

verus! {

/// The state after admission checks at the given times, one after the other.
pub open spec fn run(start: BucketState, times: Seq<nat>) -> BucketState
    decreases times.len(),
{
    if times.len() == 0 {
        start
    } else {
        run(start, times.drop_last()).consume(times.last())
    }
}

/// How many of the admission checks at the given times are allowed.
pub open spec fn admitted(start: BucketState, times: Seq<nat>) -> nat
    decreases times.len(),
{
    if times.len() == 0 {
        0
    } else {
        let earlier = admitted(start, times.drop_last());
        if run(start, times.drop_last()).refill(times.last()).admits() {
            earlier + 1
        } else {
            earlier
        }
    }
}

/// A run of admission checks keeps the capacity and the rate, keeps the
/// level within the capacity, and never moves the refill time back.
pub proof fn lemma_run_keeps_policy(start: BucketState, times: Seq<nat>)
    requires
        start.wf(),
    ensures
        run(start, times).wf(),
        run(start, times).capacity == start.capacity,
        run(start, times).rate == start.rate,
        run(start, times).last_refill >= start.last_refill,
    decreases times.len(),
{
    if times.len() > 0 {
        lemma_run_keeps_policy(start, times.drop_last());
        lemma_consume_keeps_policy(run(start, times.drop_last()), times.last());
    }
}

/// Conservation: the tokens taken by a run of admission checks, together
/// with those left, never exceed the tokens at the start and those that
/// accrued at the configured rate up to the last refill.
pub proof fn lemma_run_conserves(start: BucketState, times: Seq<nat>)
    requires
        start.wf(),
    ensures
        run(start, times).last_refill >= start.last_refill,
        admitted(start, times) * FEMTOS_PER_TOKEN as nat + run(start, times).level
            <= start.level + (run(start, times).last_refill - start.last_refill) * start.rate,
    decreases times.len(),
{
    if times.len() > 0 {
        let before = run(start, times.drop_last());
        let now = times.last();
        lemma_run_conserves(start, times.drop_last());
        lemma_run_keeps_policy(start, times.drop_last());
        if now > before.last_refill {
            assert((now - start.last_refill) * start.rate == (before.last_refill
                - start.last_refill) * start.rate + (now - before.last_refill) * start.rate)
                by (nonlinear_arith);
        }
    }
}

/// The refill time after a run is the latest time seen: the start's own, or
/// a later time of a check.
pub open spec fn latest(start: nat, times: Seq<nat>) -> nat
    decreases times.len(),
{
    if times.len() == 0 {
        start
    } else if times.last() > latest(start, times.drop_last()) {
        times.last()
    } else {
        latest(start, times.drop_last())
    }
}

/// A run leaves the refill time at the latest time seen.
pub proof fn lemma_run_ends_at_latest(start: BucketState, times: Seq<nat>)
    ensures
        run(start, times).last_refill == latest(start.last_refill, times),
    decreases times.len(),
{
    if times.len() > 0 {
        lemma_run_ends_at_latest(start, times.drop_last());
    }
}

/// The rate bound: over any run of admission checks, from any state, the
/// admissions never exceed the whole tokens in the capacity plus what the
/// configured rate yields over the time that the run spans.
pub proof fn law_admissions_within_rate(start: BucketState, times: Seq<nat>)
    requires
        start.wf(),
    ensures
        latest(start.last_refill, times) >= start.last_refill,
        admitted(start, times) <= (start.level + (latest(start.last_refill, times)
            - start.last_refill) * start.rate) / (FEMTOS_PER_TOKEN as int),
        admitted(start, times) <= (start.brim() + (latest(start.last_refill, times)
            - start.last_refill) * start.rate) / (FEMTOS_PER_TOKEN as int),
{
    lemma_run_conserves(start, times);
    lemma_run_ends_at_latest(start, times);
}

/// Whether no refill in a run of admission checks was cut short by the
/// capacity: whenever time had passed, the bucket had room for all that
/// accrued.
pub open spec fn never_spills(start: BucketState, times: Seq<nat>) -> bool
    decreases times.len(),
{
    if times.len() == 0 {
        true
    } else {
        let before = run(start, times.drop_last());
        &&& never_spills(start, times.drop_last())
        &&& times.last() > before.last_refill ==> before.level + (times.last()
            - before.last_refill) * before.rate <= before.brim()
    }
}

/// As long as no refill is cut short by the capacity, the tokens taken by
/// a run and those left are exactly the tokens at the start and those that
/// accrued up to the last refill.
proof fn lemma_run_accounts(start: BucketState, times: Seq<nat>)
    requires
        start.wf(),
        never_spills(start, times),
    ensures
        run(start, times).last_refill >= start.last_refill,
        admitted(start, times) * FEMTOS_PER_TOKEN as nat + run(start, times).level
            == start.level + (run(start, times).last_refill - start.last_refill) * start.rate,
    decreases times.len(),
{
    if times.len() > 0 {
        let before = run(start, times.drop_last());
        let now = times.last();
        lemma_run_accounts(start, times.drop_last());
        lemma_run_keeps_policy(start, times.drop_last());
        if now > before.last_refill {
            assert((now - start.last_refill) * start.rate == (before.last_refill
                - start.last_refill) * start.rate + (now - before.last_refill) * start.rate)
                by (nonlinear_arith);
        }
    } else {
        assert((start.last_refill - start.last_refill) * start.rate == 0) by (nonlinear_arith);
    }
}

/// Exact accounting: as long as no refill is cut short by the capacity, the
/// tokens taken and those left are exactly the tokens at the start and those
/// that accrued. So when the bucket ends below one token, the admissions are
/// the whole tokens in what the bucket held and gained, rounded down.
pub proof fn law_exact_while_below_capacity(start: BucketState, times: Seq<nat>)
    requires
        start.wf(),
        never_spills(start, times),
    ensures
        latest(start.last_refill, times) >= start.last_refill,
        admitted(start, times) * FEMTOS_PER_TOKEN as nat + run(start, times).level
            == start.level + (latest(start.last_refill, times) - start.last_refill) * start.rate,
        !run(start, times).admits() ==> admitted(start, times) == (start.level + (latest(
            start.last_refill,
            times,
        ) - start.last_refill) * start.rate) / (FEMTOS_PER_TOKEN as int),
{
    lemma_run_accounts(start, times);
    lemma_run_ends_at_latest(start, times);
}

/// A run over `earlier` and then `window` is the run over `window` from the
/// state that `earlier` leads to, and its admissions are those of the two
/// parts together.
pub proof fn lemma_run_splits(start: BucketState, earlier: Seq<nat>, window: Seq<nat>)
    ensures
        run(start, earlier + window) == run(run(start, earlier), window),
        admitted(start, earlier + window) == admitted(start, earlier) + admitted(
            run(start, earlier),
            window,
        ),
    decreases window.len(),
{
    if window.len() == 0 {
        assert(earlier + window =~= earlier);
    } else {
        lemma_run_splits(start, earlier, window.drop_last());
        assert((earlier + window).drop_last() =~= earlier + window.drop_last());
    }
}

/// The rate bound over any window: among the admission checks of a run,
/// those of any later part admit no more than the whole tokens in the
/// capacity plus what the configured rate yields over the time that this
/// part spans.
pub proof fn law_window_within_rate(start: BucketState, earlier: Seq<nat>, window: Seq<nat>)
    requires
        start.wf(),
    ensures
        ({
            let opened = run(start, earlier).last_refill;
            &&& latest(opened, window) >= opened
            &&& admitted(start, earlier + window) - admitted(start, earlier) <= (start.brim() + (
            latest(opened, window) - opened) * start.rate) / (FEMTOS_PER_TOKEN as int)
        }),
{
    lemma_run_splits(start, earlier, window);
    lemma_run_keeps_policy(start, earlier);
    law_admissions_within_rate(run(start, earlier), window);
}

/// The burst bound: admission checks with no time between them, from any
/// state, admit no more than the whole tokens in the bucket, and so never
/// more than the limit.
pub proof fn law_burst_within_capacity(start: BucketState, times: Seq<nat>)
    requires
        start.wf(),
        forall|i: int| 0 <= i < times.len() ==> times[i] <= start.last_refill,
    ensures
        admitted(start, times) <= start.remaining(),
        admitted(start, times) <= start.limit(),
{
    lemma_latest_of_idle(start.last_refill, times);
    law_admissions_within_rate(start, times);
    law_report_bounds(start);
    assert((latest(start.last_refill, times) - start.last_refill) * start.rate == 0)
        by (nonlinear_arith)
        requires
            latest(start.last_refill, times) == start.last_refill,
    ;
}

/// Times that are not after the start leave the latest time at the start.
proof fn lemma_latest_of_idle(start: nat, times: Seq<nat>)
    requires
        forall|i: int| 0 <= i < times.len() ==> times[i] <= start,
    ensures
        latest(start, times) == start,
    decreases times.len(),
{
    if times.len() > 0 {
        lemma_latest_of_idle(start, times.drop_last());
    }
}

/// Without refill, admission checks at any times and in any order admit
/// exactly the whole tokens in the bucket, as far as there are that many
/// checks, and reject the rest.
pub proof fn law_exact_without_refill(start: BucketState, times: Seq<nat>)
    requires
        start.wf(),
        start.rate == 0,
    ensures
        admitted(start, times) == if times.len() <= start.remaining() {
            times.len()
        } else {
            start.remaining()
        },
        run(start, times).level == start.level - admitted(start, times) * FEMTOS_PER_TOKEN as nat,
        run(start, times).rate == 0,
    decreases times.len(),
{
    if times.len() > 0 {
        let before = run(start, times.drop_last());
        law_exact_without_refill(start, times.drop_last());
        lemma_run_keeps_policy(start, times.drop_last());
        assert((times.last() - before.last_refill) * before.rate == 0) by (nonlinear_arith)
            requires
                before.rate == 0,
        ;
    }
}

} // verus!
