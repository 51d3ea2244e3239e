use vstd::prelude::*;

use super::level::{BatteryLevel, level_percent};
use crate::audio::AudioClip;

verus! {

/// A configured battery level: when it applies and what it does when reached.
#[derive(Debug, PartialEq, Eq)]
pub struct BatteryWarningLevel {
    name: String,
    precise_threshold_percent: Option<u8>,
    coarse_level: Option<BatteryLevel>,
    notify: bool,
    urgent: bool,
    audio: Option<AudioClip>,
}

/// The model of a warning level.
pub struct LevelView {
    pub name: Seq<char>,
    pub precise_threshold_percent: Option<u8>,
    pub coarse_level: Option<BatteryLevel>,
    pub notify: bool,
    pub urgent: bool,
    pub audio: Option<Seq<char>>,
}

impl LevelView {
    /// A level acts when it shows a notification or plays audio.
    pub open spec fn has_action(self) -> bool {
        self.notify || self.audio is Some
    }
}

pub open spec fn audio_view(audio: Option<AudioClip>) -> Option<Seq<char>> {
    match audio {
        Some(clip) => Some(clip@),
        None => None,
    }
}

impl View for BatteryWarningLevel {
    type V = LevelView;

    closed spec fn view(&self) -> LevelView {
        LevelView {
            name: self.name@,
            precise_threshold_percent: self.precise_threshold_percent,
            coarse_level: self.coarse_level,
            notify: self.notify,
            urgent: self.urgent,
            audio: audio_view(self.audio),
        }
    }
}

impl Clone for BatteryWarningLevel {
    fn clone(&self) -> (level: Self)
        ensures
            level == *self,
    {
        BatteryWarningLevel {
            name: self.name.clone(),
            precise_threshold_percent: self.precise_threshold_percent,
            coarse_level: self.coarse_level,
            notify: self.notify,
            urgent: self.urgent,
            audio: match &self.audio {
                Some(clip) => Some(clip.clone()),
                None => None,
            },
        }
    }
}

/// The level named `name` with the given thresholds and actions.
pub open spec fn level_view(
    name: Seq<char>,
    precise_threshold_percent: Option<u8>,
    coarse_level: Option<BatteryLevel>,
    notify: bool,
    urgent: bool,
    audio: Option<Seq<char>>,
) -> LevelView {
    LevelView { name, precise_threshold_percent, coarse_level, notify, urgent, audio }
}

/// The default levels: full, medium, low and empty, at the percentages of the
/// coarse levels; all but full notify, and only empty is urgent.
pub open spec fn default_levels_view() -> Seq<LevelView> {
    seq![
        level_view("full"@, level_percent(BatteryLevel::Full), Some(BatteryLevel::Full), false, false, None),
        level_view("medium"@, level_percent(BatteryLevel::Medium), Some(BatteryLevel::Medium), true, false, None),
        level_view("low"@, level_percent(BatteryLevel::Low), Some(BatteryLevel::Low), true, false, None),
        level_view("empty"@, level_percent(BatteryLevel::Empty), Some(BatteryLevel::Empty), true, true, None),
    ]
}

impl BatteryWarningLevel {
    pub fn new(
        name: &str,
        precise_threshold_percent: Option<u8>,
        coarse_level: Option<BatteryLevel>,
        notify: bool,
        urgent: bool,
        audio: Option<AudioClip>,
    ) -> (level: Self)
        ensures
            level@ == level_view(name@, precise_threshold_percent, coarse_level, notify, urgent, audio_view(audio)),
    {
        BatteryWarningLevel {
            name: String::from_str(name),
            precise_threshold_percent,
            coarse_level,
            notify,
            urgent,
            audio,
        }
    }

    pub fn with_notify(
        name: &str,
        precise_threshold_percent: Option<u8>,
        coarse_level: Option<BatteryLevel>,
        notify: bool,
        urgent: bool,
    ) -> (level: Self)
        ensures
            level@ == level_view(name@, precise_threshold_percent, coarse_level, notify, urgent, None),
    {
        Self::with_notify_and_audio(name, precise_threshold_percent, coarse_level, notify, urgent, None)
    }

    pub fn with_notify_and_audio(
        name: &str,
        precise_threshold_percent: Option<u8>,
        coarse_level: Option<BatteryLevel>,
        notify: bool,
        urgent: bool,
        audio: Option<AudioClip>,
    ) -> (level: Self)
        ensures
            level@ == level_view(name@, precise_threshold_percent, coarse_level, notify, urgent, audio_view(audio)),
    {
        Self::new(name, precise_threshold_percent, coarse_level, notify, urgent, audio)
    }

    pub fn default_levels() -> (levels: Vec<Self>)
        ensures
            levels@.map_values(|level: BatteryWarningLevel| level@) == default_levels_view(),
    {
        let levels = vec![
            Self::with_notify("full", BatteryLevel::Full.estimated_percent(), Some(BatteryLevel::Full), false, false),
            Self::with_notify("medium", BatteryLevel::Medium.estimated_percent(), Some(BatteryLevel::Medium), true, false),
            Self::with_notify("low", BatteryLevel::Low.estimated_percent(), Some(BatteryLevel::Low), true, false),
            Self::with_notify("empty", BatteryLevel::Empty.estimated_percent(), Some(BatteryLevel::Empty), true, true),
        ];
        assert(levels@.map_values(|level: BatteryWarningLevel| level@) =~= default_levels_view());
        levels
    }

    pub fn name(&self) -> (name: &str)
        ensures
            name@ == self@.name,
    {
        self.name.as_str()
    }

    pub fn precise_threshold_percent(&self) -> (threshold: Option<u8>)
        ensures
            threshold == self@.precise_threshold_percent,
    {
        self.precise_threshold_percent
    }

    pub fn coarse_level(&self) -> (level: Option<BatteryLevel>)
        ensures
            level == self@.coarse_level,
    {
        self.coarse_level
    }

    pub fn notify(&self) -> (notify: bool)
        ensures
            notify == self@.notify,
    {
        self.notify
    }

    pub fn urgent(&self) -> (urgent: bool)
        ensures
            urgent == self@.urgent,
    {
        self.urgent
    }

    pub fn audio(&self) -> (audio: Option<&AudioClip>)
        ensures
            match audio {
                Some(clip) => self@.audio == Some(clip@),
                None => self@.audio is None,
            },
    {
        match &self.audio {
            Some(clip) => Some(clip),
            None => None,
        }
    }

    pub fn has_action(&self) -> (acts: bool)
        ensures
            acts == self@.has_action(),
    {
        self.notify || self.audio.is_some()
    }

    /// Whether two levels are configured identically.
    pub fn same_level(&self, other: &Self) -> (same: bool)
        ensures
            same == (self@ == other@),
    {
        let same_audio = match (&self.audio, &other.audio) {
            (Some(a), Some(b)) => a.same_clip(b),
            (None, None) => true,
            _ => false,
        };
        let same_precise = match (self.precise_threshold_percent, other.precise_threshold_percent) {
            (Some(a), Some(b)) => a == b,
            (None, None) => true,
            _ => false,
        };
        let same_coarse = match (self.coarse_level, other.coarse_level) {
            (Some(a), Some(b)) => a == b,
            (None, None) => true,
            _ => false,
        };
        self.name == other.name && same_precise && same_coarse && self.notify == other.notify
            && self.urgent == other.urgent && same_audio
    }
}

} // verus!
