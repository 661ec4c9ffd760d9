//! A repeating interval timer. Each tick adds the elapsed time to an
//! accumulator; when the accumulator reaches the interval the timer fires
//! once and keeps the remainder, so time lost to a long frame carries into
//! the next one. Even a delta spanning several intervals fires at most once
//! per call; the surplus fires on later calls.

use vstd::prelude::*;

verus! {

/// A repeating timer over millisecond deltas.
#[derive(Clone, Copy, Debug, PartialEq, Eq, Structural)]
pub struct RepeatTimer {
    /// How often the timer fires, in milliseconds; always positive.
    pub interval_ms: u32,
    /// Time accumulated towards the next firing, in milliseconds.
    pub acc_ms: u64,
}

/// The accumulator after adding a delta; it sticks at the top of its range
/// rather than wrap (reaching that point would take half a million years of
/// game time).
pub open spec fn spec_acc_plus(acc: u64, dt_ms: u32) -> u64 {
    if acc + dt_ms > u64::MAX {
        u64::MAX
    } else {
        (acc + dt_ms) as u64
    }
}

impl RepeatTimer {
    /// The timer invariant: the interval is positive.
    pub open spec fn wf(self) -> bool {
        self.interval_ms > 0
    }

    /// A fresh timer that first fires once `interval_ms` has elapsed.
    pub fn new(interval_ms: u32) -> (r: RepeatTimer)
        requires
            interval_ms > 0,
        ensures
            r.wf(),
            r.interval_ms == interval_ms,
            r.acc_ms == 0,
    {
        RepeatTimer { interval_ms, acc_ms: 0 }
    }

    /// Advance the timer by `dt_ms`. It fires exactly when the accumulated
    /// time reaches the interval, and then keeps the remainder.
    pub fn tick(&mut self, dt_ms: u32) -> (fired: bool)
        requires
            old(self).wf(),
        ensures
            final(self).wf(),
            final(self).interval_ms == old(self).interval_ms,
            fired == (spec_acc_plus(old(self).acc_ms, dt_ms) >= old(self).interval_ms),
            final(self).acc_ms == if fired {
                spec_acc_plus(old(self).acc_ms, dt_ms) - old(self).interval_ms
            } else {
                spec_acc_plus(old(self).acc_ms, dt_ms) as int
            },
    {
        if self.acc_ms > u64::MAX - dt_ms as u64 {
            self.acc_ms = u64::MAX;
        } else {
            self.acc_ms = self.acc_ms + dt_ms as u64;
        }
        if self.acc_ms >= self.interval_ms as u64 {
            self.acc_ms = self.acc_ms - self.interval_ms as u64;
            true
        } else {
            false
        }
    }
}

/// The sum of a sequence of time deltas.
pub open spec fn seq_sum(dts: Seq<int>) -> int
    decreases dts.len(),
{
    if dts.len() == 0 {
        0
    } else {
        dts[0] + seq_sum(dts.drop_first())
    }
}

/// How often a timer with the given interval fires while it consumes `dts`,
/// starting from accumulator `acc`, with the remainder carried between
/// ticks. This is the ideal-arithmetic model of a run of [`RepeatTimer::tick`]
/// calls (the two agree until the accumulator would leave `u64`).
pub open spec fn spawn_count(acc: int, interval: int, dts: Seq<int>) -> nat
    decreases dts.len(),
{
    if dts.len() == 0 {
        0
    } else {
        let a = acc + dts[0];
        if a >= interval {
            1 + spawn_count(a - interval, interval, dts.drop_first())
        } else {
            spawn_count(a, interval, dts.drop_first())
        }
    }
}

/// A sequence of non-negative deltas has a non-negative sum.
proof fn lemma_sum_nonneg(dts: Seq<int>)
    requires
        forall|i: int| 0 <= i < dts.len() ==> dts[i] >= 0,
    ensures
        seq_sum(dts) >= 0,
    decreases dts.len(),
{
    if dts.len() > 0 {
        lemma_sum_nonneg(dts.drop_first());
    }
}

/// A timer that never accumulates a full interval never fires.
proof fn lemma_no_spawn_below_interval(acc: int, interval: int, dts: Seq<int>)
    requires
        forall|i: int| 0 <= i < dts.len() ==> dts[i] >= 0,
        acc >= 0,
        acc + seq_sum(dts) < interval,
    ensures
        spawn_count(acc, interval, dts) == 0,
    decreases dts.len(),
{
    if dts.len() > 0 {
        lemma_sum_nonneg(dts.drop_first());
        lemma_no_spawn_below_interval(acc + dts[0], interval, dts.drop_first());
    }
}

/// A run of deltas that tops the accumulator up to exactly one interval
/// makes the timer fire exactly once.
proof fn lemma_exactly_one_spawn(acc: int, interval: int, dts: Seq<int>)
    requires
        forall|i: int| 0 <= i < dts.len() ==> dts[i] >= 0,
        0 <= acc < interval,
        acc + seq_sum(dts) == interval,
    ensures
        spawn_count(acc, interval, dts) == 1,
    decreases dts.len(),
{
    if dts.len() > 0 {
        let a = acc + dts[0];
        lemma_sum_nonneg(dts.drop_first());
        if a >= interval {
            lemma_no_spawn_below_interval(0, interval, dts.drop_first());
        } else {
            lemma_exactly_one_spawn(a, interval, dts.drop_first());
        }
    }
}

/// Splitting a sequence of deltas splits its sum.
proof fn lemma_sum_take_skip(dts: Seq<int>, k: int)
    requires
        0 <= k <= dts.len(),
    ensures
        seq_sum(dts) == seq_sum(dts.take(k)) + seq_sum(dts.skip(k)),
    decreases k,
{
    if k == 0 {
        assert(dts.take(0) =~= Seq::<int>::empty());
        assert(dts.skip(0) =~= dts);
    } else {
        lemma_sum_take_skip(dts.drop_first(), k - 1);
        assert(dts.take(k).drop_first() =~= dts.drop_first().take(k - 1));
        assert(dts.skip(k) =~= dts.drop_first().skip(k - 1));
        assert(seq_sum(dts.take(k)) == dts[0] + seq_sum(dts.drop_first().take(k - 1)));
    }
}

/// The spawn-interval law. Feed a fresh timer a run of time deltas that sums
/// to exactly one interval: the timer fires exactly once over the whole run,
/// and it has fired within the first `k` ticks precisely when the first `k`
/// deltas already sum to the interval — that is, on the tick where the
/// cumulative time first reaches the interval.
pub proof fn lemma_single_interval_fires_once(interval: int, dts: Seq<int>, k: int)
    requires
        interval > 0,
        forall|i: int| 0 <= i < dts.len() ==> dts[i] >= 0,
        seq_sum(dts) == interval,
        0 <= k <= dts.len(),
    ensures
        spawn_count(0, interval, dts) == 1,
        spawn_count(0, interval, dts.take(k)) == if seq_sum(dts.take(k)) >= interval {
            1nat
        } else {
            0nat
        },
{
    lemma_exactly_one_spawn(0, interval, dts);
    lemma_sum_take_skip(dts, k);
    assert(forall|i: int| 0 <= i < k ==> dts.take(k)[i] == dts[i]);
    if seq_sum(dts.take(k)) >= interval {
        lemma_sum_nonneg(dts.skip(k));
        assert(seq_sum(dts.take(k)) == interval);
        lemma_exactly_one_spawn(0, interval, dts.take(k));
    } else {
        lemma_no_spawn_below_interval(0, interval, dts.take(k));
    }
}

} // verus!
