//! Threshold warnings: a precise charge that falls through one of a few percentages,
//! or a coarse level that drops to a warning level.
use vstd::prelude::*;

use super::charge::BatteryCharge;
use super::level::BatteryLevel;
use super::reading::BatteryReading;

verus! {

/// A warning: the threshold percentage crossed, or the coarse level reached.
#[derive(Clone, Copy, Debug, PartialEq, Eq, Structural)]
pub enum BatteryWarning {
    Precise(u8),
    Coarse(BatteryLevel),
}

/// Warns when a precise charge falls through one of its thresholds, or a coarse level
/// drops to medium, low or empty.
#[derive(Clone, Debug)]
pub struct BatteryWarningPolicy {
    precise_thresholds: Vec<u8>,
}

impl View for BatteryWarningPolicy {
    type V = Seq<u8>;

    closed spec fn view(&self) -> Seq<u8> {
        self.precise_thresholds@
    }
}

/// Highest first, each at most once.
pub open spec fn strictly_decreasing(thresholds: Seq<u8>) -> bool {
    forall|i: int, j: int| 0 <= i < j < thresholds.len() ==> thresholds[i] > thresholds[j]
}

/// The order of the coarse levels, from unknown up to full.
pub open spec fn level_rank(level: BatteryLevel) -> nat {
    match level {
        BatteryLevel::Unknown => 0,
        BatteryLevel::Empty => 1,
        BatteryLevel::Low => 2,
        BatteryLevel::Medium => 3,
        BatteryLevel::Full => 4,
    }
}

/// The coarse levels that warn when reached: medium, low and empty.
pub open spec fn is_warning_level(level: BatteryLevel) -> bool {
    level == BatteryLevel::Medium || level == BatteryLevel::Low || level == BatteryLevel::Empty
}

/// Whether a fall from `previous` to `current` passes through `threshold`.
pub open spec fn crosses(threshold: u8, previous: u8, current: u8) -> bool {
    previous > threshold && current <= threshold
}

/// The crossed threshold found first when the thresholds are read from the last one
/// back, that is the lowest when they are ordered highest first.
pub open spec fn crossed_precise_spec(thresholds: Seq<u8>, previous: u8, current: u8) -> Option<u8>
    decreases thresholds.len(),
{
    if thresholds.len() == 0 {
        None
    } else if crosses(thresholds.last(), previous, current) {
        Some(thresholds.last())
    } else {
        crossed_precise_spec(thresholds.drop_last(), previous, current)
    }
}

pub open spec fn crossed_coarse_spec(previous: BatteryLevel, current: BatteryLevel) -> Option<BatteryLevel> {
    if level_rank(current) < level_rank(previous) && is_warning_level(current) {
        Some(current)
    } else {
        None
    }
}

/// The warning a change of reading reaches; readings on different scales, or with an
/// unknown charge, never warn.
pub open spec fn threshold_warning_between(
    thresholds: Seq<u8>,
    previous: BatteryReading,
    current: BatteryReading,
) -> Option<BatteryWarning> {
    match (previous.charge, current.charge) {
        (BatteryCharge::Precise(p), BatteryCharge::Precise(c)) => match crossed_precise_spec(thresholds, p, c) {
            Some(t) => Some(BatteryWarning::Precise(t)),
            None => None,
        },
        (BatteryCharge::Coarse(p), BatteryCharge::Coarse(c)) => match crossed_coarse_spec(p, c) {
            Some(level) => Some(BatteryWarning::Coarse(level)),
            None => None,
        },
        _ => None,
    }
}

fn level_order(level: BatteryLevel) -> (rank: u8)
    ensures
        rank == level_rank(level),
{
    match level {
        BatteryLevel::Unknown => 0,
        BatteryLevel::Empty => 1,
        BatteryLevel::Low => 2,
        BatteryLevel::Medium => 3,
        BatteryLevel::Full => 4,
    }
}

impl BatteryLevel {
    /// Whether reaching this level warns.
    pub fn is_warning_level(self) -> (warns: bool)
        ensures
            warns == is_warning_level(self),
    {
        match self {
            BatteryLevel::Medium | BatteryLevel::Low | BatteryLevel::Empty => true,
            _ => false,
        }
    }
}

impl BatteryWarningPolicy {
    /// A policy with the given thresholds, ordered highest first with duplicates removed.
    pub fn new(precise_thresholds: Vec<u8>) -> (policy: Self)
        ensures
            strictly_decreasing(policy@),
            forall|t: u8| policy@.contains(t) <==> precise_thresholds@.contains(t),
    {
        let mut sorted: Vec<u8> = Vec::new();
        let mut i: usize = 0;
        while i < precise_thresholds.len()
            invariant
                i <= precise_thresholds.len(),
                strictly_decreasing(sorted@),
                forall|t: u8| sorted@.contains(t) <==> precise_thresholds@.take(i as int).contains(t),
            decreases precise_thresholds.len() - i,
        {
            let value = precise_thresholds[i];
            let mut j: usize = 0;
            while j < sorted.len() && sorted[j] > value
                invariant
                    j <= sorted.len(),
                    forall|k: int| 0 <= k < j ==> sorted@[k] > value,
                decreases sorted.len() - j,
            {
                j = j + 1;
            }
            let ghost before = sorted@;
            let ghost taken = precise_thresholds@.take(i as int);
            assert(precise_thresholds@.take(i + 1) =~= taken.push(value));
            if j < sorted.len() && sorted[j] == value {
                assert(before.contains(value));
                assert forall|t: u8| sorted@.contains(t) <==> taken.push(value).contains(t) by {
                    if taken.push(value).contains(t) && t != value {
                        let w = choose|w: int| 0 <= w < taken.len() + 1 && taken.push(value)[w] == t;
                        assert(taken[w] == t);
                    }
                    if taken.contains(t) {
                        let w = choose|w: int| 0 <= w < taken.len() && taken[w] == t;
                        assert(taken.push(value)[w] == t);
                    }
                }
            } else {
                sorted.insert(j, value);
                assert(sorted@ =~= before.insert(j as int, value));
                assert forall|a: int, b: int| 0 <= a < b < sorted@.len() implies sorted@[a] > sorted@[b] by {
                    if b < j {
                    } else if a < j && b == j {
                    } else if a < j {
                        assert(sorted@[b] == before[b - 1]);
                        assert(before[a] > before[b - 1]);
                    } else if a == j {
                        assert(sorted@[b] == before[b - 1]);
                        assert(before[j as int] <= value);
                        if b - 1 > j {
                            assert(before[j as int] > before[b - 1]);
                        }
                    } else {
                        assert(sorted@[a] == before[a - 1]);
                        assert(sorted@[b] == before[b - 1]);
                    }
                }
                assert forall|t: u8| sorted@.contains(t) <==> taken.push(value).contains(t) by {
                    if sorted@.contains(t) {
                        let w = choose|w: int| 0 <= w < sorted@.len() && sorted@[w] == t;
                        if w < j {
                            assert(before[w] == t);
                        } else if w > j {
                            assert(before[w - 1] == t);
                        }
                        if t != value {
                            assert(before.contains(t));
                            let v = choose|v: int| 0 <= v < taken.len() && taken[v] == t;
                            assert(taken.push(value)[v] == t);
                        } else {
                            assert(taken.push(value)[taken.len() as int] == t);
                        }
                    }
                    if taken.push(value).contains(t) {
                        let w = choose|w: int| 0 <= w < taken.len() + 1 && taken.push(value)[w] == t;
                        if w < taken.len() {
                            assert(taken[w] == t);
                            assert(before.contains(t));
                            let v = choose|v: int| 0 <= v < before.len() && before[v] == t;
                            if v < j {
                                assert(sorted@[v] == t);
                            } else {
                                assert(sorted@[v + 1] == t);
                            }
                        } else {
                            assert(sorted@[j as int] == t);
                        }
                    }
                }
            }
            i = i + 1;
        }
        assert(precise_thresholds@.take(precise_thresholds.len() as int) =~= precise_thresholds@);
        BatteryWarningPolicy { precise_thresholds: sorted }
    }

    fn crossed_precise_threshold(&self, previous: u8, current: u8) -> (threshold: Option<u8>)
        ensures
            threshold == crossed_precise_spec(self@, previous, current),
    {
        let ghost all = self@;
        let mut i: usize = self.precise_thresholds.len();
        assert(all.take(i as int) =~= all);
        while i > 0
            invariant
                i <= self.precise_thresholds.len(),
                all == self@,
                crossed_precise_spec(all, previous, current) == crossed_precise_spec(all.take(i as int), previous, current),
            decreases i,
        {
            let threshold = self.precise_thresholds[i - 1];
            assert(all.take(i as int).drop_last() =~= all.take(i - 1));
            if previous > threshold && current <= threshold {
                return Some(threshold);
            }
            i = i - 1;
        }
        None
    }

    fn crossed_coarse_level(&self, previous: BatteryLevel, current: BatteryLevel) -> (level: Option<BatteryLevel>)
        ensures
            level == crossed_coarse_spec(previous, current),
    {
        if level_order(current) < level_order(previous) && current.is_warning_level() {
            Some(current)
        } else {
            None
        }
    }

    /// The warning a change of reading from `previous` to `current` reaches, if any.
    pub fn warning_between(&self, previous: BatteryReading, current: BatteryReading) -> (warning: Option<
        BatteryWarning,
    >)
        ensures
            warning == threshold_warning_between(self@, previous, current),
    {
        match (previous.charge, current.charge) {
            (BatteryCharge::Precise(p), BatteryCharge::Precise(c)) => match self.crossed_precise_threshold(p, c) {
                Some(t) => Some(BatteryWarning::Precise(t)),
                None => None,
            },
            (BatteryCharge::Coarse(p), BatteryCharge::Coarse(c)) => match self.crossed_coarse_level(p, c) {
                Some(level) => Some(BatteryWarning::Coarse(level)),
                None => None,
            },
            _ => None,
        }
    }
}

/// The default thresholds: 50%, 25% and 10%.
pub open spec fn default_thresholds() -> Seq<u8> {
    seq![50u8, 25u8, 10u8]
}

impl Default for BatteryWarningPolicy {
    fn default() -> (policy: Self)
        ensures
            policy@ == default_thresholds(),
    {
        let mut thresholds: Vec<u8> = Vec::new();
        thresholds.push(50);
        thresholds.push(25);
        thresholds.push(10);
        BatteryWarningPolicy { precise_thresholds: thresholds }
    }
}

/// Of the thresholds, highest first, the one reported is the lowest that the fall
/// crossed; nothing is reported exactly when no threshold was crossed.
pub proof fn law_reports_the_lowest_crossed_threshold(thresholds: Seq<u8>, previous: u8, current: u8)
    requires
        strictly_decreasing(thresholds),
    ensures
        crossed_precise_spec(thresholds, previous, current) matches Some(t) ==> {
            &&& thresholds.contains(t)
            &&& crosses(t, previous, current)
            &&& forall|x: u8| thresholds.contains(x) && crosses(x, previous, current) ==> t <= x
        },
        crossed_precise_spec(thresholds, previous, current) is None ==> forall|x: u8|
            thresholds.contains(x) ==> !crosses(x, previous, current),
    decreases thresholds.len(),
{
    if thresholds.len() > 0 {
        let prefix = thresholds.drop_last();
        let last = thresholds.last();
        assert(strictly_decreasing(prefix));
        law_reports_the_lowest_crossed_threshold(prefix, previous, current);
        assert forall|x: u8| thresholds.contains(x) && x != last implies prefix.contains(x) by {
            let w = choose|w: int| 0 <= w < thresholds.len() && thresholds[w] == x;
            assert(prefix[w] == x);
        }
        assert forall|x: u8| prefix.contains(x) implies thresholds.contains(x) && x > last by {
            let w = choose|w: int| 0 <= w < prefix.len() && prefix[w] == x;
            assert(thresholds[w] == x);
        }
        assert(thresholds[thresholds.len() - 1] == last);
    }
}

} // verus!
