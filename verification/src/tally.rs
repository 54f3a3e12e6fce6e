//! The tally aggregator: a running count of key presses, seeded with a
//! baseline, that raises a flush signal at every multiple of the threshold.

use vstd::prelude::*;
use crate::reader::Tick;

verus! {

/// Number of counts between two flush signals.
pub const THRESHOLD: i64 = 50;

/// Whether a count is one at which a flush signal fires.
pub open spec fn is_flush_point(count: int) -> bool {
    count % (THRESHOLD as int) == 0
}

/// How many flush signals fire while `ticks` ticks are counted on top of
/// `start`: the number of multiples of the threshold above `start` and up to
/// `start + ticks`.
pub open spec fn flush_count(start: int, ticks: nat) -> nat {
    ((start + ticks) / (THRESHOLD as int) - start / (THRESHOLD as int)) as nat
}

/// The count that the flush signal of place `k` carries, counting from zero,
/// when counting starts at `start`: the multiple of the threshold that is
/// `k + 1` multiples above `start`.
pub open spec fn flush_quantity(start: int, k: int) -> int {
    (start / (THRESHOLD as int) + 1 + k) * THRESHOLD
}

/// The flush signals that fire, in order, while `ticks` ticks are counted on
/// top of `start`.
pub open spec fn flushes(start: int, ticks: nat) -> Seq<int> {
    Seq::new(flush_count(start, ticks), |k: int| flush_quantity(start, k))
}

/// The counts that a sequence of flush signals carries.
pub open spec fn quantities(signals: Seq<i64>) -> Seq<int> {
    signals.map_values(|quantity: i64| quantity as int)
}

/// A tally as plain values.
pub struct TallyView {
    pub count: int,
    pub baseline: int,
}

/// The running count of a session and the baseline it was seeded with.
#[derive(Debug)]
pub struct Tally {
    count: i64,
    baseline: i64,
}

impl View for Tally {
    type V = TallyView;

    closed spec fn view(&self) -> TallyView {
        TallyView { count: self.count as int, baseline: self.baseline as int }
    }
}

impl Tally {
    /// The count never falls below the baseline.
    #[verifier::type_invariant]
    spec fn counts_up(self) -> bool {
        self.baseline <= self.count
    }

    /// A tally seeded with the baseline: nothing counted yet.
    pub fn new(baseline: i64) -> (tally: Tally)
        ensures
            tally@ == (TallyView { count: baseline as int, baseline: baseline as int }),
    {
        Tally { count: baseline, baseline }
    }

    /// The current count: the baseline and every tick since.
    pub fn count(&self) -> (count: i64)
        ensures
            count == self@.count,
            count >= self@.baseline,
    {
        proof {
            use_type_invariant(self);
        }
        self.count
    }

    /// The baseline that the tally was seeded with.
    pub fn baseline(&self) -> (baseline: i64)
        ensures
            baseline == self@.baseline,
    {
        self.baseline
    }

    /// Counts one tick. Returns the flush signal, carrying the new count,
    /// when the new count is a multiple of the threshold.
    pub fn tick(&mut self) -> (flush: Option<i64>)
        requires
            old(self)@.count < i64::MAX,
        ensures
            final(self)@.baseline == old(self)@.baseline,
            final(self)@.count == old(self)@.count + 1,
            final(self)@.count > final(self)@.baseline,
            flush == (if is_flush_point(final(self)@.count) {
                Some(final(self)@.count as i64)
            } else {
                None
            }),
    {
        proof {
            use_type_invariant(&*self);
        }
        self.count = self.count + 1;
        if self.count % THRESHOLD == 0 {
            Some(self.count)
        } else {
            None
        }
    }

    /// Counts every tick of `ticks` and returns the flush signals that fired,
    /// in order.
    pub fn feed(&mut self, ticks: &Vec<Tick>) -> (flushed: Vec<i64>)
        requires
            old(self)@.count + ticks@.len() <= i64::MAX,
        ensures
            final(self)@.baseline == old(self)@.baseline,
            final(self)@.count == old(self)@.count + ticks@.len(),
            quantities(flushed@) == flushes(old(self)@.count, ticks@.len()),
    {
        let ghost start = self@.count;
        let mut flushed: Vec<i64> = Vec::new();
        proof {
            assert(quantities(flushed@) =~= flushes(start, 0));
        }
        for i in 0..ticks.len()
            invariant
                start == old(self)@.count,
                start + ticks@.len() <= i64::MAX,
                self@.baseline == old(self)@.baseline,
                self@.count == start + i,
                quantities(flushed@) == flushes(start, i as nat),
        {
            let flush = self.tick();
            proof {
                lemma_flushes_step(start, i as nat);
            }
            if let Some(quantity) = flush {
                proof {
                    assert(quantities(flushed@.push(quantity)) =~= quantities(flushed@).push(
                        quantity as int,
                    ));
                }
                flushed.push(quantity);
            }
        }
        flushed
    }
}

/// Counting one more tick adds a flush signal exactly when the new count is
/// a multiple of the threshold, and the signal carries the new count.
pub proof fn lemma_flushes_step(start: int, ticks: nat)
    ensures
        flushes(start, ticks + 1) == (if is_flush_point(start + ticks + 1) {
            flushes(start, ticks).push(start + ticks + 1)
        } else {
            flushes(start, ticks)
        }),
{
    let now = start + ticks + 1;
    if is_flush_point(now) {
        assert(flush_count(start, ticks + 1) == flush_count(start, ticks) + 1);
        assert(flush_quantity(start, flush_count(start, ticks) as int) == now);
        assert(flushes(start, ticks + 1) =~= flushes(start, ticks).push(now));
    } else {
        assert(flush_count(start, ticks + 1) == flush_count(start, ticks));
        assert(flushes(start, ticks + 1) =~= flushes(start, ticks));
    }
}

/// For any baseline and any number of ticks, the flush signals number
/// `floor((baseline + ticks) / 50) - floor(baseline / 50)`. They carry, in
/// rising order, exactly the multiples of the threshold above the baseline
/// and up to the final count.
pub proof fn lemma_flush_signals(baseline: int, ticks: nat)
    ensures
        flushes(baseline, ticks).len() == (baseline + ticks) / 50 - baseline / 50,
        forall|k: int|
            0 <= k < flushes(baseline, ticks).len() ==> {
                let quantity = #[trigger] flushes(baseline, ticks)[k];
                &&& quantity == (baseline / 50 + 1 + k) * 50
                &&& is_flush_point(quantity)
                &&& baseline < quantity <= baseline + ticks
            },
        forall|quantity: int|
            baseline < quantity <= baseline + ticks && is_flush_point(quantity)
                ==> #[trigger] flushes(baseline, ticks).contains(quantity),
{
    let signals = flushes(baseline, ticks);
    assert forall|quantity: int|
        baseline < quantity <= baseline + ticks && is_flush_point(
            quantity,
        ) implies #[trigger] signals.contains(quantity) by {
        let k = quantity / 50 - baseline / 50 - 1;
        assert(0 <= k < signals.len());
        assert(signals[k] == quantity);
    }
}

/// The flush signal of place `k`, counting from one, carries
/// `baseline + k * 50` if and only if the baseline is itself a multiple of
/// the threshold. From any other baseline the signals still carry multiples
/// of the threshold, and so a smaller count.
pub proof fn lemma_flush_quantity_from_baseline(baseline: int, ticks: nat, k: int)
    requires
        1 <= k <= flushes(baseline, ticks).len(),
    ensures
        flushes(baseline, ticks)[k - 1] == baseline + k * 50 <==> is_flush_point(baseline),
        flushes(baseline, ticks)[k - 1] <= baseline + k * 50,
{
}

} // verus!
