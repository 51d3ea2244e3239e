//! Rumble patterns: groups of jolts, each a strong handle phase followed by a trigger
//! phase, and how they unfold into timed steps.
use vstd::prelude::*;

use super::pattern::BatteryWarningStage;
use super::rumble_step::{RumbleStep, active_step, gap_step};

verus! {

/// One jolt: a handle phase at the handle strength, then a trigger phase at the
/// trigger strength with the handles nearly off. Strengths are percentages (capped at
/// 100), durations milliseconds.
#[derive(Clone, Copy, Debug, PartialEq, Eq, Structural)]
pub struct RumbleJolt {
    pub handle_strength_percent: u8,
    pub trigger_strength_percent: u8,
    pub handle_phase_duration: u64,
    pub trigger_phase_duration: u64,
}

/// Groups of jolts: jolts in a group are separated by the jolt gap, groups by the
/// group gap.
#[derive(Clone, Debug, PartialEq, Eq)]
pub struct RumblePattern {
    pub groups: Vec<Vec<RumbleJolt>>,
}

pub open spec fn groups_view(groups: Seq<Vec<RumbleJolt>>) -> Seq<Seq<RumbleJolt>> {
    groups.map_values(|group: Vec<RumbleJolt>| group@)
}

impl View for RumblePattern {
    type V = Seq<Seq<RumbleJolt>>;

    open spec fn view(&self) -> Seq<Seq<RumbleJolt>> {
        groups_view(self.groups@)
    }
}

/// The pattern of each warning stage.
#[derive(Clone, Debug)]
pub struct RumblePatternSet {
    medium: RumblePattern,
    low: RumblePattern,
    empty: RumblePattern,
}

/// The model of a pattern set: the medium, low and empty patterns.
pub struct PatternSetView {
    pub medium: Seq<Seq<RumbleJolt>>,
    pub low: Seq<Seq<RumbleJolt>>,
    pub empty: Seq<Seq<RumbleJolt>>,
}

impl View for RumblePatternSet {
    type V = PatternSetView;

    closed spec fn view(&self) -> PatternSetView {
        PatternSetView { medium: self.medium@, low: self.low@, empty: self.empty@ }
    }
}

pub open spec fn stage_pattern(set: PatternSetView, stage: BatteryWarningStage) -> Seq<Seq<RumbleJolt>> {
    match stage {
        BatteryWarningStage::Medium => set.medium,
        BatteryWarningStage::Low => set.low,
        BatteryWarningStage::Empty => set.empty,
    }
}

/// Whether warnings rumble, the gaps between jolts and between groups (milliseconds),
/// and the pattern of each stage.
#[derive(Clone, Debug)]
pub struct ControllerRumbleConfig {
    pub enabled: bool,
    pub jolt_gap_duration: u64,
    pub group_gap_duration: u64,
    patterns: RumblePatternSet,
}

/// The model of a rumble configuration.
pub struct RumbleConfigView {
    pub enabled: bool,
    pub jolt_gap_duration: u64,
    pub group_gap_duration: u64,
    pub patterns: PatternSetView,
}

impl View for ControllerRumbleConfig {
    type V = RumbleConfigView;

    closed spec fn view(&self) -> RumbleConfigView {
        RumbleConfigView {
            enabled: self.enabled,
            jolt_gap_duration: self.jolt_gap_duration,
            group_gap_duration: self.group_gap_duration,
            patterns: self.patterns@,
        }
    }
}

/// A percentage capped at 100.
pub open spec fn capped_percent(percent: u8) -> u16 {
    if percent > 100 {
        100
    } else {
        percent as u16
    }
}

/// A jolt's two steps: the handles at full jolt strength, then the triggers at theirs
/// with the handle motors at a tenth and a twentieth of the handle strength.
pub open spec fn jolt_steps(jolt: RumbleJolt) -> Seq<RumbleStep> {
    let handle = capped_percent(jolt.handle_strength_percent);
    let trigger = capped_percent(jolt.trigger_strength_percent);
    seq![
        active_step((handle * 100) as u16, (handle * 100) as u16, 0, 0, jolt.handle_phase_duration),
        active_step(
            (handle * 10) as u16,
            (handle * 5) as u16,
            (trigger * 100) as u16,
            (trigger * 100) as u16,
            jolt.trigger_phase_duration,
        ),
    ]
}

/// The steps of a group: its jolts, separated by gaps.
pub open spec fn group_steps(group: Seq<RumbleJolt>, jolt_gap: u64) -> Seq<RumbleStep>
    decreases group.len(),
{
    if group.len() == 0 {
        Seq::empty()
    } else {
        let earlier = group_steps(group.drop_last(), jolt_gap);
        let joined = if group.len() > 1 {
            earlier.push(gap_step(jolt_gap))
        } else {
            earlier
        };
        joined + jolt_steps(group.last())
    }
}

/// The steps of a pattern: its groups, separated by gaps.
pub open spec fn pattern_steps(groups: Seq<Seq<RumbleJolt>>, jolt_gap: u64, group_gap: u64) -> Seq<RumbleStep>
    decreases groups.len(),
{
    if groups.len() == 0 {
        Seq::empty()
    } else {
        let earlier = pattern_steps(groups.drop_last(), jolt_gap, group_gap);
        let joined = if groups.len() > 1 {
            earlier.push(gap_step(group_gap))
        } else {
            earlier
        };
        joined + group_steps(groups.last(), jolt_gap)
    }
}

fn capped(percent: u8) -> (capped: u16)
    ensures
        capped == capped_percent(percent),
{
    if percent > 100 {
        100
    } else {
        percent as u16
    }
}

fn push_gradient_jolt(steps: &mut Vec<RumbleStep>, jolt: RumbleJolt)
    ensures
        final(steps)@ == old(steps)@ + jolt_steps(jolt),
{
    let handle = capped(jolt.handle_strength_percent);
    let trigger = capped(jolt.trigger_strength_percent);
    steps.push(RumbleStep::active(handle * 100, handle * 100, 0, 0, jolt.handle_phase_duration));
    steps.push(
        RumbleStep::active(handle * 10, handle * 5, trigger * 100, trigger * 100, jolt.trigger_phase_duration),
    );
    assert(steps@ =~= old(steps)@ + jolt_steps(jolt));
}

impl RumbleJolt {
    pub fn new(
        handle_strength_percent: u8,
        trigger_strength_percent: u8,
        handle_phase_duration: u64,
        trigger_phase_duration: u64,
    ) -> (jolt: Self)
        ensures
            jolt == (RumbleJolt {
                handle_strength_percent,
                trigger_strength_percent,
                handle_phase_duration,
                trigger_phase_duration,
            }),
    {
        RumbleJolt { handle_strength_percent, trigger_strength_percent, handle_phase_duration, trigger_phase_duration }
    }
}

impl RumblePattern {
    pub fn new(groups: Vec<Vec<RumbleJolt>>) -> (pattern: Self)
        ensures
            pattern@ == groups_view(groups@),
    {
        RumblePattern { groups }
    }
}

impl RumblePatternSet {
    pub fn new(medium: RumblePattern, low: RumblePattern, empty: RumblePattern) -> (set: Self)
        ensures
            set@ == (PatternSetView { medium: medium@, low: low@, empty: empty@ }),
    {
        RumblePatternSet { medium, low, empty }
    }

    pub fn pattern_for_stage(&self, stage: BatteryWarningStage) -> (pattern: &RumblePattern)
        ensures
            pattern@ == stage_pattern(self@, stage),
    {
        match stage {
            BatteryWarningStage::Medium => &self.medium,
            BatteryWarningStage::Low => &self.low,
            BatteryWarningStage::Empty => &self.empty,
        }
    }
}

impl ControllerRumbleConfig {
    pub fn custom(enabled: bool, jolt_gap_duration: u64, group_gap_duration: u64, patterns: RumblePatternSet) -> (config:
        Self)
        ensures
            config@ == (RumbleConfigView { enabled, jolt_gap_duration, group_gap_duration, patterns: patterns@ }),
    {
        ControllerRumbleConfig { enabled, jolt_gap_duration, group_gap_duration, patterns }
    }

    pub fn pattern_for_stage(&self, stage: BatteryWarningStage) -> (pattern: &RumblePattern)
        ensures
            pattern@ == stage_pattern(self@.patterns, stage),
    {
        self.patterns.pattern_for_stage(stage)
    }

    /// Whether battery warnings rumble.
    pub fn enabled(&self) -> (enabled: bool)
        ensures
            enabled == self@.enabled,
    {
        self.enabled
    }

    /// The steps a warning of `stage` rumbles.
    pub fn steps_for_stage(&self, stage: BatteryWarningStage) -> (steps: Vec<RumbleStep>)
        ensures
            steps@ == pattern_steps(
                stage_pattern(self@.patterns, stage),
                self@.jolt_gap_duration,
                self@.group_gap_duration,
            ),
    {
        self.steps_for_pattern(self.pattern_for_stage(stage))
    }

    /// The steps of `pattern` with this configuration's gaps.
    pub fn steps_for_pattern(&self, pattern: &RumblePattern) -> (steps: Vec<RumbleStep>)
        ensures
            steps@ == pattern_steps(pattern@, self@.jolt_gap_duration, self@.group_gap_duration),
    {
        let ghost groups = pattern@;
        let mut steps: Vec<RumbleStep> = Vec::new();
        let mut i: usize = 0;
        while i < pattern.groups.len()
            invariant
                i <= pattern.groups.len(),
                groups == pattern@,
                groups.len() == pattern.groups.len(),
                steps@ == pattern_steps(groups.take(i as int), self.jolt_gap_duration, self.group_gap_duration),
            decreases pattern.groups.len() - i,
        {
            assert(groups.take(i + 1).drop_last() =~= groups.take(i as int));
            assert(groups.take(i + 1).last() == groups[i as int]);
            if i > 0 {
                steps.push(RumbleStep::gap(self.group_gap_duration));
            }
            self.push_group_steps(&mut steps, &pattern.groups[i]);
            i = i + 1;
        }
        assert(groups.take(groups.len() as int) =~= groups);
        steps
    }

    fn push_group_steps(&self, steps: &mut Vec<RumbleStep>, group: &Vec<RumbleJolt>)
        ensures
            final(steps)@ == old(steps)@ + group_steps(group@, self@.jolt_gap_duration),
    {
        let ghost start = steps@;
        let mut j: usize = 0;
        while j < group.len()
            invariant
                j <= group.len(),
                steps@ == start + group_steps(group@.take(j as int), self.jolt_gap_duration),
            decreases group.len() - j,
        {
            assert(group@.take(j + 1).drop_last() =~= group@.take(j as int));
            assert(group@.take(j + 1).last() == group@[j as int]);
            let ghost earlier = group_steps(group@.take(j as int), self.jolt_gap_duration);
            if j > 0 {
                steps.push(RumbleStep::gap(self.jolt_gap_duration));
                assert(steps@ =~= start + earlier.push(gap_step(self.jolt_gap_duration)));
            }
            push_gradient_jolt(steps, group[j]);
            assert(steps@ =~= start + group_steps(group@.take(j + 1), self.jolt_gap_duration));
            j = j + 1;
        }
        assert(group@.take(group.len() as int) =~= group@);
    }
}


fn short_group(quick: RumbleJolt) -> (group: Vec<RumbleJolt>)
    ensures
        group@ == seq![quick, quick],
{
    let mut group: Vec<RumbleJolt> = Vec::new();
    group.push(quick);
    group.push(quick);
    assert(group@ =~= seq![quick, quick]);
    group
}

fn long_group(quick: RumbleJolt, strong: RumbleJolt) -> (group: Vec<RumbleJolt>)
    ensures
        group@ == seq![quick, quick, strong],
{
    let mut group: Vec<RumbleJolt> = Vec::new();
    group.push(quick);
    group.push(quick);
    group.push(strong);
    assert(group@ =~= seq![quick, quick, strong]);
    group
}

fn one_group(group: Vec<RumbleJolt>) -> (groups: Vec<Vec<RumbleJolt>>)
    ensures
        groups@.len() == 1,
        groups@[0]@ == group@,
{
    let mut groups: Vec<Vec<RumbleJolt>> = Vec::new();
    groups.push(group);
    groups
}

impl Default for ControllerRumbleConfig {
    /// Disabled, with two quick jolts for medium, two quick and a strong one for low, and
    /// that group twice for empty.
    fn default() -> (config: Self)
        ensures
            config@.enabled == false,
            config@.jolt_gap_duration == 45,
            config@.group_gap_duration == 200,
            config@.patterns.medium == seq![seq![quick_jolt(), quick_jolt()]],
            config@.patterns.low == seq![seq![quick_jolt(), quick_jolt(), strong_jolt()]],
            config@.patterns.empty == seq![
                seq![quick_jolt(), quick_jolt(), strong_jolt()],
                seq![quick_jolt(), quick_jolt(), strong_jolt()],
            ],
    {
        let quick = RumbleJolt::new(100, 75, 35, 50);
        let strong = RumbleJolt::new(100, 100, 75, 100);
        let medium = RumblePattern::new(one_group(short_group(quick)));
        let low = RumblePattern::new(one_group(long_group(quick, strong)));
        let mut empty_groups: Vec<Vec<RumbleJolt>> = Vec::new();
        empty_groups.push(long_group(quick, strong));
        empty_groups.push(long_group(quick, strong));
        let empty = RumblePattern::new(empty_groups);
        assert(medium@ =~= seq![seq![quick_jolt(), quick_jolt()]]);
        assert(low@ =~= seq![seq![quick_jolt(), quick_jolt(), strong_jolt()]]);
        assert(empty@ =~= seq![
            seq![quick_jolt(), quick_jolt(), strong_jolt()],
            seq![quick_jolt(), quick_jolt(), strong_jolt()],
        ]);
        Self::custom(false, 45, 200, RumblePatternSet::new(medium, low, empty))
    }
}

/// The quick jolt of the default patterns.
pub open spec fn quick_jolt() -> RumbleJolt {
    RumbleJolt {
        handle_strength_percent: 100,
        trigger_strength_percent: 75,
        handle_phase_duration: 35,
        trigger_phase_duration: 50,
    }
}

/// The strong jolt of the default patterns.
pub open spec fn strong_jolt() -> RumbleJolt {
    RumbleJolt {
        handle_strength_percent: 100,
        trigger_strength_percent: 100,
        handle_phase_duration: 75,
        trigger_phase_duration: 100,
    }
}


/// The number of steps a group unfolds into: two per jolt and a gap between jolts.
pub open spec fn group_step_count(jolts: nat) -> nat {
    if jolts == 0 {
        0
    } else {
        (3 * jolts - 1) as nat
    }
}

/// A group of jolts unfolds into two steps per jolt with a gap between neighbours, and
/// each jolt is a handle phase (triggers off) followed by a trigger phase in which the
/// handle motors run at a tenth and a twentieth of their jolt strength.
pub proof fn law_group_shape(group: Seq<RumbleJolt>, jolt_gap: u64)
    ensures
        group_steps(group, jolt_gap).len() == group_step_count(group.len()),
        forall|k: int|
            0 <= k < group.len() ==> {
                let first = #[trigger] group_steps(group, jolt_gap)[3 * k];
                let second = group_steps(group, jolt_gap)[3 * k + 1];
                &&& first == jolt_steps(group[k])[0]
                &&& second == jolt_steps(group[k])[1]
                &&& first.left_trigger == 0 && first.right_trigger == 0
                &&& second.low_frequency * 10 == first.low_frequency
                &&& second.high_frequency * 20 == first.high_frequency
            },
    decreases group.len(),
{
    if group.len() > 0 {
        let prefix = group.drop_last();
        law_group_shape(prefix, jolt_gap);
        let earlier = group_steps(prefix, jolt_gap);
        let steps = group_steps(group, jolt_gap);
        let last = group.len() - 1;
        assert forall|k: int| 0 <= k < group.len() implies {
            let first = #[trigger] steps[3 * k];
            let second = steps[3 * k + 1];
            &&& first == jolt_steps(group[k])[0]
            &&& second == jolt_steps(group[k])[1]
            &&& first.left_trigger == 0 && first.right_trigger == 0
            &&& second.low_frequency * 10 == first.low_frequency
            &&& second.high_frequency * 20 == first.high_frequency
        } by {
            if k < last {
                assert(prefix[k] == group[k]);
                assert(steps[3 * k] == earlier[3 * k]);
                assert(steps[3 * k + 1] == earlier[3 * k + 1]);
            } else {
                let offset = if group.len() > 1 {
                    earlier.len() + 1int
                } else {
                    earlier.len() as int
                };
                assert(offset == 3 * k);
                assert(steps[3 * k] == jolt_steps(group[k])[0]);
                assert(steps[3 * k + 1] == jolt_steps(group[k])[1]);
            }
        }
    }
}

/// The number of steps a pattern unfolds into.
pub open spec fn pattern_step_count(groups: Seq<Seq<RumbleJolt>>) -> nat
    decreases groups.len(),
{
    if groups.len() == 0 {
        0
    } else {
        pattern_step_count(groups.drop_last()) + (if groups.len() > 1 {
            1nat
        } else {
            0nat
        }) + group_step_count(groups.last().len())
    }
}

/// A pattern unfolds into its groups' steps with one gap between neighbouring groups.
pub proof fn law_pattern_length(groups: Seq<Seq<RumbleJolt>>, jolt_gap: u64, group_gap: u64)
    ensures
        pattern_steps(groups, jolt_gap, group_gap).len() == pattern_step_count(groups),
    decreases groups.len(),
{
    if groups.len() > 0 {
        law_pattern_length(groups.drop_last(), jolt_gap, group_gap);
        law_group_shape(groups.last(), jolt_gap);
    }
}

} // verus!
