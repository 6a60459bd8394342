//! A rolling history of fuel readings.
//!
//! A [`FuelMonitor`] keeps the sixteen most recent [`FuelLevel`] readings in
//! insertion order, silently evicting the oldest once it is full, and
//! answers minimum, maximum and mean queries over what it currently holds.
//!
//! The monitor's view is the sequence of its entries' magnitudes in
//! millilitres, oldest first.

use vstd::prelude::*;
use vstd::arithmetic::div_mod::{lemma_div_by_multiple, lemma_div_is_ordered};
use crate::history::{after_write, history_view, History, HISTORY_CAPACITY};
use crate::level::{level_of_ml, FuelLevel};

verus! {

broadcast use crate::level::lemma_level_of_ml_view;

/// The smallest value in a non-empty sequence.
pub open spec fn min_ml(s: Seq<u64>) -> u64
    recommends
        s.len() > 0,
    decreases s.len(),
{
    if s.len() <= 1 {
        s[0]
    } else if s.last() < min_ml(s.drop_last()) {
        s.last()
    } else {
        min_ml(s.drop_last())
    }
}

/// The largest value in a non-empty sequence.
pub open spec fn max_ml(s: Seq<u64>) -> u64
    recommends
        s.len() > 0,
    decreases s.len(),
{
    if s.len() <= 1 {
        s[0]
    } else if s.last() > max_ml(s.drop_last()) {
        s.last()
    } else {
        max_ml(s.drop_last())
    }
}

/// The sum of a sequence of values.
pub open spec fn sum_ml(s: Seq<u64>) -> int
    decreases s.len(),
{
    if s.len() == 0 {
        0
    } else {
        sum_ml(s.drop_last()) + s.last()
    }
}

/// What a minimum query returns over the given entries.
pub open spec fn min_result(s: Seq<u64>) -> Option<FuelLevel> {
    if s.len() == 0 {
        None
    } else {
        Some(level_of_ml(min_ml(s)))
    }
}

/// What a maximum query returns over the given entries.
pub open spec fn max_result(s: Seq<u64>) -> Option<FuelLevel> {
    if s.len() == 0 {
        None
    } else {
        Some(level_of_ml(max_ml(s)))
    }
}

/// What a mean query returns over the given entries: their sum divided by
/// their number, truncating any fraction of a millilitre.
pub open spec fn mean_result(s: Seq<u64>) -> Option<FuelLevel> {
    if s.len() == 0 {
        None
    } else {
        Some(level_of_ml((sum_ml(s) / s.len() as int) as u64))
    }
}

/// The minimum of a non-empty sequence is one of its values, and no value
/// is smaller.
pub proof fn lemma_min_ml_properties(s: Seq<u64>)
    requires
        s.len() > 0,
    ensures
        s.contains(min_ml(s)),
        forall|j: int| 0 <= j < s.len() ==> min_ml(s) <= s[j],
    decreases s.len(),
{
    if s.len() == 1 {
        assert(s[0] == min_ml(s));
    } else {
        let d = s.drop_last();
        lemma_min_ml_properties(d);
        if s.last() < min_ml(d) {
            assert(s[s.len() - 1] == min_ml(s));
        } else {
            let j = choose|j: int| 0 <= j < d.len() && d[j] == min_ml(d);
            assert(s[j] == min_ml(s));
        }
        assert forall|j: int| 0 <= j < s.len() implies min_ml(s) <= s[j] by {
            if j < s.len() - 1 {
                assert(s[j] == d[j]);
            }
        }
    }
}

/// The maximum of a non-empty sequence is one of its values, and no value
/// is larger.
pub proof fn lemma_max_ml_properties(s: Seq<u64>)
    requires
        s.len() > 0,
    ensures
        s.contains(max_ml(s)),
        forall|j: int| 0 <= j < s.len() ==> s[j] <= max_ml(s),
    decreases s.len(),
{
    if s.len() == 1 {
        assert(s[0] == max_ml(s));
    } else {
        let d = s.drop_last();
        lemma_max_ml_properties(d);
        if s.last() > max_ml(d) {
            assert(s[s.len() - 1] == max_ml(s));
        } else {
            let j = choose|j: int| 0 <= j < d.len() && d[j] == max_ml(d);
            assert(s[j] == max_ml(s));
        }
        assert forall|j: int| 0 <= j < s.len() implies s[j] <= max_ml(s) by {
            if j < s.len() - 1 {
                assert(s[j] == d[j]);
            }
        }
    }
}

/// The sum of a sequence is non-negative and at most its length times the
/// largest representable value.
pub proof fn lemma_sum_ml_bounds(s: Seq<u64>)
    ensures
        0 <= sum_ml(s),
        sum_ml(s) <= s.len() * (u64::MAX as int),
    decreases s.len(),
{
    if s.len() > 0 {
        lemma_sum_ml_bounds(s.drop_last());
        assert((s.len() - 1) * (u64::MAX as int) + (u64::MAX as int) == s.len() * (
        u64::MAX as int));
    }
}

/// Tracks recent fuel readings.
pub struct FuelMonitor {
    levels: History,
}

impl View for FuelMonitor {
    type V = Seq<u64>;

    /// The magnitudes of the entries in millilitres, oldest first.
    closed spec fn view(&self) -> Seq<u64> {
        history_view(self.levels)
    }
}

impl FuelMonitor {
    /// Create a new fuel monitor with no readings.
    pub fn new() -> (r: FuelMonitor)
        ensures
            r@ == Seq::<u64>::empty(),
    {
        FuelMonitor { levels: History::new() }
    }

    /// Add a reading to the monitor.
    ///
    /// The reading becomes the newest entry; if the monitor already holds
    /// [`HISTORY_CAPACITY`] entries, the single oldest entry is evicted to
    /// make room.
    pub fn insert(&mut self, level: FuelLevel)
        ensures
            final(self)@ == after_write(old(self)@, level@ as u64),
    {
        self.levels.write(level.as_millilitres());
    }

    /// Get the minimum fuel level, or nothing when there are no readings.
    ///
    /// When several entries tie for smallest magnitude the returned level
    /// carries that magnitude; entries of equal magnitude are
    /// indistinguishable as levels.
    pub fn min(&self) -> (r: Option<FuelLevel>)
        ensures
            r == min_result(self@),
            r is None <==> self@.len() == 0,
            r matches Some(l) ==> l@ == min_ml(self@) && self@.contains(l@ as u64) && (forall|
                j: int,
            | 0 <= j < self@.len() ==> l@ <= self@[j]),
    {
        let v = self.levels.oldest_to_newest();
        if v.len() == 0 {
            return None;
        }
        let mut best: u64 = v[0];
        let mut i: usize = 1;
        proof {
            assert(v@.take(1) =~= seq![v@[0]]);
        }
        while i < v.len()
            invariant
                1 <= i <= v@.len(),
                v@ == self@,
                best == min_ml(v@.take(i as int)),
            decreases v@.len() - i,
        {
            proof {
                assert(v@.take(i + 1).drop_last() =~= v@.take(i as int));
                assert(v@.take(i + 1).last() == v@[i as int]);
            }
            let x = v[i];
            if x < best {
                best = x;
            }
            i += 1;
        }
        proof {
            assert(v@.take(v@.len() as int) =~= v@);
            lemma_min_ml_properties(self@);
        }
        Some(FuelLevel::of_millilitres(best))
    }

    /// Get the maximum fuel level, or nothing when there are no readings.
    ///
    /// The tie policy is the same as for [`FuelMonitor::min`].
    pub fn max(&self) -> (r: Option<FuelLevel>)
        ensures
            r == max_result(self@),
            r is None <==> self@.len() == 0,
            r matches Some(l) ==> l@ == max_ml(self@) && self@.contains(l@ as u64) && (forall|
                j: int,
            | 0 <= j < self@.len() ==> self@[j] <= l@),
    {
        let v = self.levels.oldest_to_newest();
        if v.len() == 0 {
            return None;
        }
        let mut best: u64 = v[0];
        let mut i: usize = 1;
        proof {
            assert(v@.take(1) =~= seq![v@[0]]);
        }
        while i < v.len()
            invariant
                1 <= i <= v@.len(),
                v@ == self@,
                best == max_ml(v@.take(i as int)),
            decreases v@.len() - i,
        {
            proof {
                assert(v@.take(i + 1).drop_last() =~= v@.take(i as int));
                assert(v@.take(i + 1).last() == v@[i as int]);
            }
            let x = v[i];
            if x > best {
                best = x;
            }
            i += 1;
        }
        proof {
            assert(v@.take(v@.len() as int) =~= v@);
            lemma_max_ml_properties(self@);
        }
        Some(FuelLevel::of_millilitres(best))
    }

    /// Get the mean fuel level, or nothing when there are no readings.
    ///
    /// The mean is the sum of the entries' magnitudes divided by their
    /// number, truncating any fraction of a millilitre. Every entry was
    /// validated at construction, so the sum of at most sixteen of them is
    /// a finite non-negative quantity and the mean is again a
    /// representable level: the reconstruction at the end cannot fail.
    pub fn mean(&self) -> (r: Option<FuelLevel>)
        ensures
            r == mean_result(self@),
            r is None <==> self@.len() == 0,
            r matches Some(l) ==> l@ == sum_ml(self@) / (self@.len() as int),
    {
        let v = self.levels.oldest_to_newest();
        let n: usize = v.len();
        if n == 0 {
            return None;
        }
        let mut total: u128 = 0;
        let mut i: usize = 0;
        while i < n
            invariant
                0 <= i <= n,
                n == v@.len(),
                v@ == self@,
                total == sum_ml(v@.take(i as int)),
                total <= (i as int) * (u64::MAX as int),
            decreases n - i,
        {
            proof {
                assert(v@.take(i + 1).drop_last() =~= v@.take(i as int));
                assert(v@.take(i + 1).last() == v@[i as int]);
                assert((i as int) * (u64::MAX as int) + (u64::MAX as int) == (i + 1) * (
                u64::MAX as int));
                assert((i + 1) * (u64::MAX as int) <= (usize::MAX as int) * (u64::MAX as int));
            }
            total = total + (v[i] as u128);
            i += 1;
        }
        proof {
            assert(v@.take(n as int) =~= v@);
            lemma_sum_ml_bounds(v@);
            lemma_div_is_ordered(total as int, (n as int) * (u64::MAX as int), n as int);
            lemma_div_by_multiple(u64::MAX as int, n as int);
            assert((n as int) * (u64::MAX as int) == (u64::MAX as int) * (n as int));
        }
        let avg: u128 = total / (n as u128);
        Some(FuelLevel::of_millilitres(avg as u64))
    }
}

/// The history never outgrows its capacity: a reading written to a monitor
/// that holds at most sixteen entries leaves at most sixteen entries.
/// Below capacity the reading is appended and nothing leaves; at capacity
/// the oldest entry, and only the oldest, is evicted.
pub proof fn lemma_insert_bounded(s: Seq<u64>, v: u64)
    requires
        s.len() <= HISTORY_CAPACITY,
    ensures
        after_write(s, v).len() <= HISTORY_CAPACITY,
        s.len() < HISTORY_CAPACITY ==> after_write(s, v) == s.push(v),
        s.len() == HISTORY_CAPACITY ==> after_write(s, v) == s.drop_first().push(v)
            && after_write(s, v).len() == HISTORY_CAPACITY,
{
}

/// Queries are read-only — they take the monitor by shared reference — and
/// each result is a function of the monitor's state alone: two calls of
/// `min`, `max` or `mean` with no intervening `insert` return identical
/// results.
pub proof fn lemma_queries_idempotent(
    s: Seq<u64>,
    min1: Option<FuelLevel>,
    min2: Option<FuelLevel>,
    max1: Option<FuelLevel>,
    max2: Option<FuelLevel>,
    mean1: Option<FuelLevel>,
    mean2: Option<FuelLevel>,
)
    requires
        min1 == min_result(s),
        min2 == min_result(s),
        max1 == max_result(s),
        max2 == max_result(s),
        mean1 == mean_result(s),
        mean2 == mean_result(s),
    ensures
        min1 == min2,
        max1 == max2,
        mean1 == mean2,
{
}

} // verus!
