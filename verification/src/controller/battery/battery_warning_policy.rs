use vstd::prelude::*;

use super::battery_warning::{BatteryWarning, BatteryWarningReading, WarningView};
use super::battery_warning_level::{BatteryWarningLevel, LevelView, default_levels_view};
use super::charge::{BatteryCharge, charge_percent};
use super::level::{BatteryLevel, level_percent};
use super::reading::BatteryReading;

verus! {

/// Decides which configured level, if any, a change of battery reading reaches.
#[derive(Debug, PartialEq, Eq)]
pub struct BatteryWarningPolicy {
    levels: Vec<BatteryWarningLevel>,
}

impl View for BatteryWarningPolicy {
    type V = Seq<LevelView>;

    closed spec fn view(&self) -> Seq<LevelView> {
        self.levels@.map_values(|level: BatteryWarningLevel| level@)
    }
}

impl Clone for BatteryWarningPolicy {
    fn clone(&self) -> (policy: Self)
        ensures
            policy@ == self@,
    {
        let mut levels: Vec<BatteryWarningLevel> = Vec::new();
        let mut i: usize = 0;
        while i < self.levels.len()
            invariant
                i <= self.levels.len(),
                levels@.len() == i,
                forall|j: int| 0 <= j < i ==> levels@[j] == self.levels@[j],
            decreases self.levels.len() - i,
        {
            levels.push(self.levels[i].clone());
            i = i + 1;
        }
        let policy = BatteryWarningPolicy { levels };
        assert(policy@ =~= self@);
        policy
    }
}

/// The thresholds a precise reading reaches: crossed from above when a previous
/// percentage is known, or merely at or above the current percentage otherwise.
pub open spec fn threshold_filter(previous: Option<u8>, current: u8) -> spec_fn(u8) -> bool {
    |threshold: u8|
        match previous {
            Some(previous) => previous > threshold && current <= threshold,
            None => current <= threshold,
        }
}

/// A level that acts and whose precise threshold the filter accepts.
pub open spec fn precise_candidate(level: LevelView, accepts: spec_fn(u8) -> bool) -> bool {
    &&& level.has_action()
    &&& level.precise_threshold_percent is Some
    &&& accepts(level.precise_threshold_percent->0)
}

/// The candidate with the lowest threshold; among equal thresholds, the first one.
pub open spec fn lowest_threshold_index(levels: Seq<LevelView>, accepts: spec_fn(u8) -> bool) -> Option<int>
    decreases levels.len(),
{
    if levels.len() == 0 {
        None
    } else {
        let prefix = lowest_threshold_index(levels.drop_last(), accepts);
        let last = levels.len() - 1;
        if precise_candidate(levels[last], accepts) {
            match prefix {
                Some(best) => if levels[best].precise_threshold_percent->0
                    <= levels[last].precise_threshold_percent->0 {
                    Some(best)
                } else {
                    Some(last)
                },
                None => Some(last),
            }
        } else {
            prefix
        }
    }
}

/// A level that acts and is mapped to the coarse level `current`.
pub open spec fn coarse_candidate(level: LevelView, current: BatteryLevel) -> bool {
    level.has_action() && level.coarse_level == Some(current)
}

/// The first level that acts on the coarse level `current`.
pub open spec fn first_coarse_index(levels: Seq<LevelView>, current: BatteryLevel) -> Option<int>
    decreases levels.len(),
{
    if levels.len() == 0 {
        None
    } else {
        let prefix = first_coarse_index(levels.drop_last(), current);
        if prefix is Some {
            prefix
        } else if coarse_candidate(levels[levels.len() - 1], current) {
            Some(levels.len() - 1)
        } else {
            None
        }
    }
}

pub open spec fn precise_warning_for(
    levels: Seq<LevelView>,
    previous: Option<u8>,
    current: u8,
) -> Option<WarningView> {
    match lowest_threshold_index(levels, threshold_filter(previous, current)) {
        Some(i) => Some(
            WarningView {
                reading: BatteryWarningReading::Precise(levels[i].precise_threshold_percent->0),
                level: levels[i],
            },
        ),
        None => None,
    }
}

pub open spec fn coarse_warning_for(levels: Seq<LevelView>, current: BatteryLevel) -> Option<
    WarningView,
> {
    match first_coarse_index(levels, current) {
        Some(i) => Some(WarningView { reading: BatteryWarningReading::Coarse(current), level: levels[i] }),
        None => None,
    }
}

/// A drop from `previous_percent` to the coarse level `current` warns for the level's
/// first acting configuration; a coarse level at or above the previous percentage does not.
pub open spec fn crossed_coarse_from_percent(
    levels: Seq<LevelView>,
    previous_percent: u8,
    current: BatteryLevel,
) -> Option<WarningView> {
    match level_percent(current) {
        Some(current_percent) => if current_percent >= previous_percent {
            None
        } else {
            coarse_warning_for(levels, current)
        },
        None => None,
    }
}

/// The warning that a change from `previous` to `current` reaches.
pub open spec fn warning_between_spec(
    levels: Seq<LevelView>,
    previous: BatteryReading,
    current: BatteryReading,
) -> Option<WarningView> {
    match (previous.charge, current.charge) {
        (BatteryCharge::Precise(p), BatteryCharge::Precise(c)) => precise_warning_for(levels, Some(p), c),
        (BatteryCharge::Coarse(p), BatteryCharge::Precise(c)) => match level_percent(p) {
            Some(p) => precise_warning_for(levels, Some(p), c),
            None => None,
        },
        (BatteryCharge::Precise(p), BatteryCharge::Coarse(c)) => crossed_coarse_from_percent(levels, p, c),
        (BatteryCharge::Coarse(p), BatteryCharge::Coarse(c)) => match level_percent(p) {
            Some(p) => crossed_coarse_from_percent(levels, p, c),
            None => None,
        },
        _ => None,
    }
}

/// The warning that applies to `current` on its own, with no earlier reading to compare.
pub open spec fn warning_for_current_spec(levels: Seq<LevelView>, current: BatteryReading) -> Option<
    WarningView,
> {
    match current.charge {
        BatteryCharge::Precise(c) => precise_warning_for(levels, None, c),
        BatteryCharge::Coarse(c) => if c != BatteryLevel::Unknown {
            coarse_warning_for(levels, c)
        } else {
            None
        },
        BatteryCharge::Unknown => None,
    }
}

pub open spec fn warning_option_view(warning: Option<BatteryWarning>) -> Option<WarningView> {
    match warning {
        Some(warning) => Some(warning@),
        None => None,
    }
}

pub open spec fn index_option(index: Option<usize>) -> Option<int> {
    match index {
        Some(i) => Some(i as int),
        None => None,
    }
}

proof fn lemma_lowest_is_candidate(levels: Seq<LevelView>, accepts: spec_fn(u8) -> bool)
    ensures
        lowest_threshold_index(levels, accepts) matches Some(i) ==> 0 <= i < levels.len()
            && precise_candidate(levels[i], accepts),
    decreases levels.len(),
{
    if levels.len() > 0 {
        lemma_lowest_is_candidate(levels.drop_last(), accepts);
    }
}

proof fn lemma_first_coarse_is_candidate(levels: Seq<LevelView>, current: BatteryLevel)
    ensures
        first_coarse_index(levels, current) matches Some(i) ==> 0 <= i < levels.len()
            && coarse_candidate(levels[i], current),
    decreases levels.len(),
{
    if levels.len() > 0 {
        lemma_first_coarse_is_candidate(levels.drop_last(), current);
    }
}

proof fn lemma_first_coarse_prefix(levels: Seq<LevelView>, k: int, current: BatteryLevel)
    requires
        0 <= k <= levels.len(),
        first_coarse_index(levels.take(k), current) is Some,
    ensures
        first_coarse_index(levels, current) == first_coarse_index(levels.take(k), current),
    decreases levels.len(),
{
    if k == levels.len() {
        assert(levels.take(k) =~= levels);
    } else {
        assert(levels.drop_last().take(k) =~= levels.take(k));
        lemma_first_coarse_prefix(levels.drop_last(), k, current);
    }
}

impl BatteryWarningPolicy {
    pub fn new(levels: Vec<BatteryWarningLevel>) -> (policy: Self)
        ensures
            policy@ == levels@.map_values(|level: BatteryWarningLevel| level@),
    {
        BatteryWarningPolicy { levels }
    }

    /// The index of the acting level with the lowest precise threshold that the
    /// filter accepts.
    fn lowest_threshold_level(&self, previous: Option<u8>, current: u8) -> (best: Option<usize>)
        ensures
            index_option(best) == lowest_threshold_index(self@, threshold_filter(previous, current)),
            best matches Some(i) ==> i < self@.len(),
    {
        let ghost accepts = threshold_filter(previous, current);
        let mut best: Option<usize> = None;
        let mut i: usize = 0;
        while i < self.levels.len()
            invariant
                i <= self.levels.len(),
                self@.len() == self.levels.len(),
                accepts == threshold_filter(previous, current),
                index_option(best) == lowest_threshold_index(self@.take(i as int), accepts),
                best matches Some(j) ==> j < i,
            decreases self.levels.len() - i,
        {
            proof {
                lemma_lowest_is_candidate(self@.take(i as int), accepts);
                assert(self@.take(i + 1).drop_last() =~= self@.take(i as int));
            }
            let level = &self.levels[i];
            assert(level@ == self@[i as int]);
            if level.has_action() {
                match level.precise_threshold_percent() {
                    Some(threshold) => {
                        let accepted = match previous {
                            Some(p) => p > threshold && current <= threshold,
                            None => current <= threshold,
                        };
                        if accepted {
                            match best {
                                Some(j) => {
                                    assert(self@.take(i as int)[j as int] == self@[j as int]);
                                    let best_threshold = self.levels[j].precise_threshold_percent();
                                    match best_threshold {
                                        Some(bt) => {
                                            if threshold < bt {
                                                best = Some(i);
                                            }
                                        },
                                        None => {},
                                    }
                                },
                                None => {
                                    best = Some(i);
                                },
                            }
                        }
                    },
                    None => {},
                }
            }
            i = i + 1;
        }
        assert(self@.take(self@.len() as int) =~= self@);
        best
    }

    /// The index of the first acting level mapped to the coarse level `current`.
    fn first_coarse_level(&self, current: BatteryLevel) -> (found: Option<usize>)
        ensures
            index_option(found) == first_coarse_index(self@, current),
            found matches Some(i) ==> i < self@.len(),
    {
        let mut i: usize = 0;
        while i < self.levels.len()
            invariant
                i <= self.levels.len(),
                self@.len() == self.levels.len(),
                first_coarse_index(self@.take(i as int), current) is None,
            decreases self.levels.len() - i,
        {
            assert(self@.take(i + 1).drop_last() =~= self@.take(i as int));
            let level = &self.levels[i];
            assert(level@ == self@[i as int]);
            let acts = level.has_action();
            let mapped = match level.coarse_level() {
                Some(level) => level == current,
                None => false,
            };
            if acts && mapped {
                proof {
                    lemma_first_coarse_prefix(self@, i + 1, current);
                }
                return Some(i);
            }
            i = i + 1;
        }
        assert(self@.take(self@.len() as int) =~= self@);
        None
    }

    fn precise_warning(&self, previous: Option<u8>, current: u8) -> (warning: Option<BatteryWarning>)
        ensures
            warning_option_view(warning) == precise_warning_for(self@, previous, current),
    {
        proof {
            lemma_lowest_is_candidate(self@, threshold_filter(previous, current));
        }
        match self.lowest_threshold_level(previous, current) {
            Some(i) => {
                let level = &self.levels[i];
                assert(level@ == self@[i as int]);
                match level.precise_threshold_percent() {
                    Some(threshold) => Some(BatteryWarning::precise(threshold, level.clone())),
                    None => None,
                }
            },
            None => None,
        }
    }

    fn coarse_warning(&self, current: BatteryLevel) -> (warning: Option<BatteryWarning>)
        ensures
            warning_option_view(warning) == coarse_warning_for(self@, current),
    {
        match self.first_coarse_level(current) {
            Some(i) => {
                let level = &self.levels[i];
                assert(level@ == self@[i as int]);
                Some(BatteryWarning::coarse(current, level.clone()))
            },
            None => None,
        }
    }

    fn crossed_precise_threshold(&self, previous: u8, current: u8) -> (warning: Option<BatteryWarning>)
        ensures
            warning_option_view(warning) == precise_warning_for(self@, Some(previous), current),
    {
        self.precise_warning(Some(previous), current)
    }

    fn crossed_coarse_level(&self, previous: BatteryLevel, current: BatteryLevel) -> (warning: Option<
        BatteryWarning,
    >)
        ensures
            warning_option_view(warning) == match level_percent(previous) {
                Some(p) => crossed_coarse_from_percent(self@, p, current),
                None => None,
            },
    {
        match previous.estimated_percent() {
            Some(previous_percent) => self.crossed_coarse_level_from_percent(previous_percent, current),
            None => None,
        }
    }

    fn crossed_coarse_level_from_percent(&self, previous_percent: u8, current: BatteryLevel) -> (warning:
        Option<BatteryWarning>)
        ensures
            warning_option_view(warning) == crossed_coarse_from_percent(self@, previous_percent, current),
    {
        let current_percent = match current.estimated_percent() {
            Some(percent) => percent,
            None => return None,
        };
        if current_percent >= previous_percent {
            return None;
        }
        self.coarse_warning(current)
    }

    /// The warning that a change of reading from `previous` to `current` reaches, if any.
    pub fn warning_between(&self, previous: BatteryReading, current: BatteryReading) -> (warning: Option<
        BatteryWarning,
    >)
        ensures
            warning_option_view(warning) == warning_between_spec(self@, previous, current),
    {
        match (previous.charge, current.charge) {
            (BatteryCharge::Precise(p), BatteryCharge::Precise(c)) => self.crossed_precise_threshold(p, c),
            (BatteryCharge::Coarse(p), BatteryCharge::Precise(c)) => match p.estimated_percent() {
                Some(p) => self.crossed_precise_threshold(p, c),
                None => None,
            },
            (BatteryCharge::Precise(p), BatteryCharge::Coarse(c)) => self.crossed_coarse_level_from_percent(p, c),
            (BatteryCharge::Coarse(p), BatteryCharge::Coarse(c)) => self.crossed_coarse_level(p, c),
            _ => None,
        }
    }

    /// The warning that applies to `current` alone, used when no comparable earlier
    /// reading exists.
    pub fn warning_for_current(&self, current: BatteryReading) -> (warning: Option<BatteryWarning>)
        ensures
            warning_option_view(warning) == warning_for_current_spec(self@, current),
    {
        match current.charge {
            BatteryCharge::Precise(c) => self.precise_warning(None, c),
            BatteryCharge::Coarse(c) => if c != BatteryLevel::Unknown {
                self.coarse_warning(c)
            } else {
                None
            },
            BatteryCharge::Unknown => None,
        }
    }

    /// Whether two policies configure the same levels in the same order.
    pub fn same_policy(&self, other: &Self) -> (same: bool)
        ensures
            same == (self@ == other@),
    {
        if self.levels.len() != other.levels.len() {
            assert(self@.len() != other@.len());
            return false;
        }
        let mut i: usize = 0;
        while i < self.levels.len()
            invariant
                i <= self.levels.len(),
                self.levels.len() == other.levels.len(),
                self@.len() == self.levels.len(),
                other@.len() == other.levels.len(),
                forall|j: int| 0 <= j < i ==> self@[j] == other@[j],
            decreases self.levels.len() - i,
        {
            let same_level = self.levels[i].same_level(&other.levels[i]);
            if !same_level {
                assert(self@[i as int] != other@[i as int]);
                return false;
            }
            i = i + 1;
        }
        assert(self@ =~= other@);
        true
    }
}

impl Default for BatteryWarningPolicy {
    fn default() -> (policy: Self)
        ensures
            policy@ == default_levels_view(),
    {
        Self::new(BatteryWarningLevel::default_levels())
    }
}

} // verus!

verus! {

proof fn lemma_lowest_is_minimal(levels: Seq<LevelView>, accepts: spec_fn(u8) -> bool)
    ensures
        match lowest_threshold_index(levels, accepts) {
            Some(i) => 0 <= i < levels.len() && precise_candidate(levels[i], accepts) && forall|j: int|
                0 <= j < levels.len() && precise_candidate(levels[j], accepts)
                    ==> levels[i].precise_threshold_percent->0 <= levels[j].precise_threshold_percent->0,
            None => forall|j: int| 0 <= j < levels.len() ==> !precise_candidate(levels[j], accepts),
        },
    decreases levels.len(),
{
    if levels.len() > 0 {
        let prefix = levels.drop_last();
        lemma_lowest_is_minimal(prefix, accepts);
        assert(forall|j: int| 0 <= j < prefix.len() ==> prefix[j] == levels[j]);
    }
}

proof fn lemma_first_coarse_is_first(levels: Seq<LevelView>, current: BatteryLevel)
    ensures
        match first_coarse_index(levels, current) {
            Some(i) => 0 <= i < levels.len() && coarse_candidate(levels[i], current) && forall|j: int|
                0 <= j < i ==> !coarse_candidate(levels[j], current),
            None => forall|j: int| 0 <= j < levels.len() ==> !coarse_candidate(levels[j], current),
        },
    decreases levels.len(),
{
    if levels.len() > 0 {
        let prefix = levels.drop_last();
        lemma_first_coarse_is_first(prefix, current);
        assert(forall|j: int| 0 <= j < prefix.len() ==> prefix[j] == levels[j]);
    }
}

/// A battery that holds or regains charge never warns: when both readings have a
/// percentage and the current one is not lower, no level is reached.
pub proof fn law_recovery_never_warns(
    policy: BatteryWarningPolicy,
    previous: BatteryReading,
    current: BatteryReading,
)
    requires
        charge_percent(previous.charge) is Some,
        charge_percent(current.charge) is Some,
        charge_percent(current.charge)->0 >= charge_percent(previous.charge)->0,
    ensures
        warning_between_spec(policy@, previous, current) is None,
{
    let p = charge_percent(previous.charge)->0;
    let c = charge_percent(current.charge)->0;
    lemma_lowest_is_minimal(policy@, threshold_filter(Some(p), c));
}

/// A reading without a usable percentage on either side never warns.
pub proof fn law_unknown_charge_never_warns(
    policy: BatteryWarningPolicy,
    previous: BatteryReading,
    current: BatteryReading,
)
    requires
        charge_percent(previous.charge) is None || charge_percent(current.charge) is None,
    ensures
        warning_between_spec(policy@, previous, current) is None,
{
}

/// Every warning belongs to a configured level that acts (notifies or plays audio), and
/// a precise warning reports the level's own threshold.
pub proof fn law_warnings_come_from_acting_levels(
    policy: BatteryWarningPolicy,
    previous: BatteryReading,
    current: BatteryReading,
)
    ensures
        warning_between_spec(policy@, previous, current) matches Some(w) ==> {
            &&& exists|i: int| 0 <= i < policy@.len() && policy@[i] == w.level
            &&& w.level.has_action()
            &&& (w.reading matches BatteryWarningReading::Precise(t) ==> w.level.precise_threshold_percent
                == Some(t))
            &&& (w.reading matches BatteryWarningReading::Coarse(l) ==> w.level.coarse_level == Some(l)
                && charge_percent(current.charge) == level_percent(l))
        },
        warning_for_current_spec(policy@, current) matches Some(w) ==> {
            &&& exists|i: int| 0 <= i < policy@.len() && policy@[i] == w.level
            &&& w.level.has_action()
        },
{
    let levels = policy@;
    match previous.charge {
        BatteryCharge::Precise(p) => {
            if let BatteryCharge::Precise(c) = current.charge {
                lemma_lowest_is_minimal(levels, threshold_filter(Some(p), c));
            }
        },
        BatteryCharge::Coarse(pl) => {
            if let (Some(p), BatteryCharge::Precise(c)) = (level_percent(pl), current.charge) {
                lemma_lowest_is_minimal(levels, threshold_filter(Some(p), c));
            }
        },
        BatteryCharge::Unknown => {},
    }
    if let BatteryCharge::Coarse(cl) = current.charge {
        lemma_first_coarse_is_first(levels, cl);
    }
    if let BatteryCharge::Precise(c) = current.charge {
        lemma_lowest_is_minimal(levels, threshold_filter(None, c));
    }
}

/// When a fall between two precise readings crosses several acting thresholds, the
/// warning is for the most severe one: no crossed acting threshold is lower.
pub proof fn law_most_severe_crossed_threshold(policy: BatteryWarningPolicy, previous: u8, current: u8)
    ensures
        precise_warning_for(policy@, Some(previous), current) matches Some(w) ==> {
            &&& w.reading matches BatteryWarningReading::Precise(t)
            &&& previous > t && current <= t
            &&& forall|i: int|
                0 <= i < policy@.len() && precise_candidate(
                    policy@[i],
                    threshold_filter(Some(previous), current),
                ) ==> t <= policy@[i].precise_threshold_percent->0
        },
        precise_warning_for(policy@, Some(previous), current) is None ==> forall|i: int|
            0 <= i < policy@.len() ==> !precise_candidate(
                policy@[i],
                threshold_filter(Some(previous), current),
            ),
{
    lemma_lowest_is_minimal(policy@, threshold_filter(Some(previous), current));
}


/// A coarse reading judged on its own, at a known coarse level, warns exactly when some
/// configured level acts and is mapped to that coarse level; the warning is then for
/// the first such level and reports the coarse level itself.
pub proof fn law_coarse_reading_warns_for_its_first_mapped_level(
    policy: BatteryWarningPolicy,
    current: BatteryReading,
    level: BatteryLevel,
)
    requires
        current.charge == BatteryCharge::Coarse(level),
        level != BatteryLevel::Unknown,
    ensures
        (warning_for_current_spec(policy@, current) is Some) == (exists|i: int|
            0 <= i < policy@.len() && (#[trigger] policy@[i]).has_action() && policy@[i].coarse_level == Some(
                level,
            )),
        warning_for_current_spec(policy@, current) matches Some(w) ==> {
            &&& w.reading == BatteryWarningReading::Coarse(level)
            &&& exists|i: int|
                0 <= i < policy@.len() && #[trigger] policy@[i] == w.level && w.level.has_action()
                    && w.level.coarse_level == Some(level) && forall|j: int|
                    0 <= j < i ==> !(policy@[j].has_action() && policy@[j].coarse_level == Some(level))
        },
{
    lemma_first_coarse_is_first(policy@, level);
}

/// A precise reading judged on its own warns exactly when some acting level has a
/// precise threshold at or above the charge; the warning is then for such a level with
/// the lowest threshold, and reports that threshold.
pub proof fn law_precise_reading_warns_for_the_lowest_reached_threshold(
    policy: BatteryWarningPolicy,
    current: BatteryReading,
    percent: u8,
)
    requires
        current.charge == BatteryCharge::Precise(percent),
    ensures
        (warning_for_current_spec(policy@, current) is Some) == (exists|i: int|
            0 <= i < policy@.len() && (#[trigger] policy@[i]).has_action() && (
            policy@[i].precise_threshold_percent matches Some(t) && percent <= t)),
        warning_for_current_spec(policy@, current) matches Some(w) ==> {
            &&& w.reading == BatteryWarningReading::Precise(w.level.precise_threshold_percent->0)
            &&& (w.level.precise_threshold_percent matches Some(t) && percent <= t)
            &&& w.level.has_action()
            &&& exists|i: int| 0 <= i < policy@.len() && #[trigger] policy@[i] == w.level
            &&& forall|j: int|
                0 <= j < policy@.len() && policy@[j].has_action() && (policy@[j].precise_threshold_percent matches Some(
                    t,
                ) && percent <= t) ==> w.level.precise_threshold_percent->0 <= policy@[j].precise_threshold_percent->0
        },
{
    lemma_lowest_is_minimal(policy@, threshold_filter(None, percent));
}


/// A fall to a precise charge, from a reading whose percentage is known (precise, or a
/// coarse level's estimate), warns exactly when it crosses the precise threshold of an
/// acting level (the previous percentage above it, the current one at or below it); the
/// warning is then for a crossed threshold that no other crossed threshold is below,
/// and reports it.
pub proof fn law_fall_to_a_precise_charge_warns_for_the_lowest_crossed_threshold(
    policy: BatteryWarningPolicy,
    previous: BatteryReading,
    current: BatteryReading,
    before: u8,
    after: u8,
)
    requires
        charge_percent(previous.charge) == Some(before),
        current.charge == BatteryCharge::Precise(after),
    ensures
        (warning_between_spec(policy@, previous, current) is Some) == (exists|i: int|
            0 <= i < policy@.len() && (#[trigger] policy@[i]).has_action() && (
            policy@[i].precise_threshold_percent matches Some(t) && before > t && after <= t)),
        warning_between_spec(policy@, previous, current) matches Some(w) ==> {
            &&& w.level.has_action()
            &&& (w.level.precise_threshold_percent matches Some(t) && before > t && after <= t
                && w.reading == BatteryWarningReading::Precise(t))
            &&& exists|i: int| 0 <= i < policy@.len() && #[trigger] policy@[i] == w.level
            &&& forall|j: int|
                0 <= j < policy@.len() && policy@[j].has_action() && (policy@[j].precise_threshold_percent matches Some(
                    t,
                ) && before > t && after <= t) ==> w.level.precise_threshold_percent->0
                    <= policy@[j].precise_threshold_percent->0
        },
{
    lemma_lowest_is_minimal(policy@, threshold_filter(Some(before), after));
}

/// A fall to a coarse level, from a reading whose percentage is known, warns only when
/// the level's estimate is below the previous percentage, and then exactly when some
/// acting level is mapped to that coarse level: for the first such level, reporting the
/// coarse level. A coarse level at or above the previous percentage never warns.
pub proof fn law_fall_to_a_coarse_level_warns_for_its_first_mapped_level(
    policy: BatteryWarningPolicy,
    previous: BatteryReading,
    current: BatteryReading,
    before: u8,
    level: BatteryLevel,
)
    requires
        charge_percent(previous.charge) == Some(before),
        current.charge == BatteryCharge::Coarse(level),
    ensures
        !(level_percent(level) matches Some(estimate) && estimate < before) ==> warning_between_spec(
            policy@,
            previous,
            current,
        ) is None,
        (level_percent(level) matches Some(estimate) && estimate < before) ==> {
            &&& (warning_between_spec(policy@, previous, current) is Some) == (exists|i: int|
                0 <= i < policy@.len() && (#[trigger] policy@[i]).has_action() && policy@[i].coarse_level == Some(
                    level,
                ))
            &&& warning_between_spec(policy@, previous, current) matches Some(w) ==> {
                &&& w.reading == BatteryWarningReading::Coarse(level)
                &&& exists|i: int|
                    0 <= i < policy@.len() && #[trigger] policy@[i] == w.level && w.level.has_action()
                        && w.level.coarse_level == Some(level) && forall|j: int|
                        0 <= j < i ==> !(policy@[j].has_action() && policy@[j].coarse_level == Some(level))
            }
        },
{
    lemma_first_coarse_is_first(policy@, level);
}

} // verus!
