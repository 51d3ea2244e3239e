use vstd::prelude::*;

use super::clock::MonotonicClock;
use super::laws::{
    lemma_defer_due_refreshes_wf, lemma_observe_connected_wf, lemma_observe_current_wf, lemma_observe_disconnected_wf,
    lemma_observe_pending_wf,
};
use super::keyed::{
    Keyed, find_key, get_value, key_index, keyed_view, lemma_key_index, lookup, remove_entry, remove_key,
    set_entry, set_key,
};
use super::model::{
    lemma_controller_index_prefix,
    absent_ids, defer_due_refreshes_spec, disconnect_all, next_refresh_delay_spec, observe_all,
    observe_current_spec, observe_pending_controllers, observe_pending_spec, release_all, retain_deferrable,
    retain_present,
    accept_sample, hold_for_confirmation, is_confirmed, observe_connected_spec, observe_known_controller,
    observe_new_controller, observe_unknown_sample,
    settled_warning,
    LevelHistoryView, MonitorView, clear_recovered_warnings_spec, confirmation_candidate_spec,
    controller_index, is_transient_unknown, needs_confirmation_spec, observe_disconnected_spec,
    option_events, preserve_known_battery_spec, record_warning, recovery_threshold,
    release_pending_connected_spec, retain_unrecovered, same_charge_scale, set_warning_policy_spec,
    should_emit_warning_spec, warning_requires_current_reading_spec,
};
use super::pending::{ConfirmationCandidate, PendingAnnouncement, PendingReading, PendingReadingKind};
use crate::controller::battery::battery_warning::BatteryWarning;
use crate::controller::battery::battery_warning_level::BatteryWarningLevel;
use crate::controller::battery::battery_warning_policy::{BatteryWarningPolicy, warning_option_view};
use crate::controller::battery::charge::BatteryCharge;
use crate::controller::battery::kind::BatteryKind;
use crate::controller::battery::level::BatteryLevel;
use crate::controller::battery::reading::BatteryReading;
use crate::controller::controller::{Controller, ControllerView};
use crate::controller::event::controller_event::{ControllerEvent, EventView};

verus! {

/// The levels a controller has been warned about, by level name.
#[derive(Clone, Debug)]
pub struct LevelHistory {
    levels: Vec<Keyed<BatteryWarningLevel>>,
}

impl View for LevelHistory {
    type V = LevelHistoryView;

    closed spec fn view(&self) -> LevelHistoryView {
        keyed_view(self.levels@)
    }
}

/// Turns controller snapshots and samples into user-facing events, holding back
/// readings that still need confirmation.
#[derive(Clone, Debug)]
pub struct ControllerMonitor {
    previous: Vec<Controller>,
    pending_readings: Vec<Keyed<PendingReading>>,
    pending_announcements: Vec<Keyed<PendingAnnouncement>>,
    warning_history: Vec<Keyed<LevelHistory>>,
    warning_policy: BatteryWarningPolicy,
    clock: MonotonicClock,
}

pub open spec fn controllers_view(controllers: Seq<Controller>) -> Seq<ControllerView> {
    controllers.map_values(|c: Controller| c@)
}

pub open spec fn events_view(events: Seq<ControllerEvent>) -> Seq<EventView> {
    events.map_values(|e: ControllerEvent| e@)
}

pub open spec fn ids_view(ids: Seq<String>) -> Seq<Seq<char>> {
    ids.map_values(|id: String| id@)
}

pub open spec fn event_option_view(event: Option<ControllerEvent>) -> Option<EventView> {
    match event {
        Some(e) => Some(e@),
        None => None,
    }
}

impl View for ControllerMonitor {
    type V = MonitorView;

    closed spec fn view(&self) -> MonitorView {
        MonitorView {
            previous: controllers_view(self.previous@),
            pending_readings: keyed_view(self.pending_readings@),
            pending_announcements: keyed_view(self.pending_announcements@),
            warning_history: keyed_view(self.warning_history@),
            warning_policy: self.warning_policy@,
        }
    }
}

/// The position of the controller with identity `id` in `controllers`.
pub fn controller_position(controllers: &Vec<Controller>, id: &String) -> (found: Option<usize>)
    ensures
        match found {
            Some(i) => controller_index(controllers_view(controllers@), id@) == Some(i as int) && i
                < controllers@.len(),
            None => controller_index(controllers_view(controllers@), id@) is None,
        },
{
    let ghost view = controllers_view(controllers@);
    let mut i: usize = 0;
    while i < controllers.len()
        invariant
            i <= controllers.len(),
            view == controllers_view(controllers@),
            view.len() == controllers.len(),
            controller_index(view.take(i as int), id@) is None,
        decreases controllers.len() - i,
    {
        assert(view.take(i + 1).drop_last() =~= view.take(i as int));
        if controllers[i].has_id(id) {
            proof {
                lemma_controller_index_prefix(view, i + 1, id@);
            }
            return Some(i);
        }
        i = i + 1;
    }
    assert(view.take(view.len() as int) =~= view);
    None
}


fn is_transient_unknown_reading(reading: BatteryReading) -> (unknown: bool)
    ensures
        unknown == is_transient_unknown(reading),
{
    reading.kind != BatteryKind::Wired && reading.charge.is_unknown()
}

fn confirmation_candidate(reading: BatteryReading) -> (candidate: Option<ConfirmationCandidate>)
    ensures
        candidate == confirmation_candidate_spec(reading),
{
    if reading.kind == BatteryKind::Wired {
        return Some(ConfirmationCandidate::Wired);
    }
    match reading.charge {
        BatteryCharge::Precise(percent) => if percent <= 10 {
            Some(ConfirmationCandidate::Low)
        } else {
            None
        },
        BatteryCharge::Coarse(BatteryLevel::Empty) => Some(ConfirmationCandidate::Low),
        BatteryCharge::Coarse(BatteryLevel::Low) => Some(ConfirmationCandidate::Low),
        _ => None,
    }
}

fn needs_confirmation(previous: BatteryReading, current: BatteryReading) -> (needs: bool)
    ensures
        needs == needs_confirmation_spec(previous, current),
{
    if confirmation_candidate(current).is_none() {
        return false;
    }
    if current.kind == BatteryKind::Wired {
        return previous.kind != BatteryKind::Wired;
    }
    match (previous.charge.estimated_percent(), current.charge.estimated_percent()) {
        (Some(previous), Some(current)) => current < previous,
        (None, Some(_)) => true,
        _ => false,
    }
}

fn same_scale(previous: BatteryCharge, current: BatteryCharge) -> (same: bool)
    ensures
        same == same_charge_scale(previous, current),
{
    match (previous, current) {
        (BatteryCharge::Precise(_), BatteryCharge::Precise(_)) => true,
        (BatteryCharge::Coarse(_), BatteryCharge::Coarse(_)) => true,
        _ => false,
    }
}

fn warning_requires_current_reading(previous: BatteryCharge, current: BatteryCharge) -> (requires_current: bool)
    ensures
        requires_current == warning_requires_current_reading_spec(previous, current),
{
    previous.is_unknown() || !same_scale(previous, current)
}

fn recovery_threshold_percent(level: &BatteryWarningLevel, charge: BatteryCharge) -> (threshold: Option<u8>)
    ensures
        threshold == recovery_threshold(level@, charge),
{
    let coarse_percent = match level.coarse_level() {
        Some(coarse) => coarse.estimated_percent(),
        None => None,
    };
    match charge {
        BatteryCharge::Precise(_) => match level.precise_threshold_percent() {
            Some(threshold) => Some(threshold),
            None => coarse_percent,
        },
        BatteryCharge::Coarse(_) => match coarse_percent {
            Some(threshold) => Some(threshold),
            None => level.precise_threshold_percent(),
        },
        BatteryCharge::Unknown => None,
    }
}

fn preserve_known_battery(previous: &Controller, current: Controller) -> (kept: Controller)
    ensures
        kept@ == preserve_known_battery_spec(previous@, current@),
{
    let previous_battery = previous.battery();
    if is_transient_unknown_reading(current.battery()) && (previous_battery.kind == BatteryKind::Wired
        || !previous_battery.charge.is_unknown()) {
        current.with_battery(previous_battery)
    } else {
        current
    }
}

impl LevelHistory {
    fn new() -> (history: Self)
        ensures
            history@ == Seq::<(Seq<char>, crate::controller::battery::battery_warning_level::LevelView)>::empty(),
    {
        let history = LevelHistory { levels: Vec::new() };
        assert(history@ =~= Seq::empty());
        history
    }

    fn duplicate(&self) -> (copy: Self)
        ensures
            copy@ == self@,
    {
        let mut levels: Vec<Keyed<BatteryWarningLevel>> = Vec::new();
        let mut i: usize = 0;
        while i < self.levels.len()
            invariant
                i <= self.levels.len(),
                levels@.len() == i,
                forall|j: int| 0 <= j < i ==> levels@[j].key@ == self.levels@[j].key@ && levels@[j].value@ == self.levels@[j].value@,
            decreases self.levels.len() - i,
        {
            let entry = &self.levels[i];
            levels.push(Keyed { key: entry.key.clone(), value: entry.value.clone() });
            i = i + 1;
        }
        let copy = LevelHistory { levels };
        assert(copy@ =~= self@);
        copy
    }

    fn contains(&self, name: &String) -> (found: bool)
        ensures
            found == (key_index(self@, name@) is Some),
    {
        find_key(&self.levels, name).is_some()
    }

    fn insert(&mut self, level: BatteryWarningLevel)
        ensures
            final(self)@ == set_key(old(self)@, level@.name, level@),
    {
        let name = String::from_str(level.name());
        set_entry(&mut self.levels, name, level);
    }

    fn is_empty(&self) -> (empty: bool)
        ensures
            empty == (self@.len() == 0),
    {
        self.levels.len() == 0
    }

    /// The levels that `charge` has not recovered from.
    fn unrecovered(&self, percent: u8, charge: BatteryCharge) -> (kept: Self)
        ensures
            kept@ == retain_unrecovered(self@, percent, charge),
    {
        let ghost all = self@;
        let mut levels: Vec<Keyed<BatteryWarningLevel>> = Vec::new();
        let mut i: usize = 0;
        while i < self.levels.len()
            invariant
                i <= self.levels.len(),
                all == self@,
                all.len() == self.levels.len(),
                keyed_view(levels@) == retain_unrecovered(all.take(i as int), percent, charge),
            decreases self.levels.len() - i,
        {
            assert(all.take(i + 1).drop_last() =~= all.take(i as int));
            let entry = &self.levels[i];
            let keep = match recovery_threshold_percent(&entry.value, charge) {
                Some(threshold) => percent <= threshold,
                None => true,
            };
            if keep {
                let ghost before = levels@;
                levels.push(Keyed { key: entry.key.clone(), value: entry.value.clone() });
                assert(keyed_view(levels@) =~= keyed_view(before).push(all[i as int]));
            }
            i = i + 1;
        }
        assert(all.take(all.len() as int) =~= all);
        LevelHistory { levels }
    }
}

impl ControllerMonitor {
    pub fn new(warning_policy: BatteryWarningPolicy) -> (monitor: Self)
        ensures
            monitor@ == (MonitorView {
                previous: Seq::empty(),
                pending_readings: Seq::empty(),
                pending_announcements: Seq::empty(),
                warning_history: Seq::empty(),
                warning_policy: warning_policy@,
            }),
            monitor@.wf(),
    {
        let monitor = ControllerMonitor {
            previous: Vec::new(),
            pending_readings: Vec::new(),
            pending_announcements: Vec::new(),
            warning_history: Vec::new(),
            warning_policy,
            clock: MonotonicClock::start(),
        };
        assert(monitor@.previous =~= Seq::empty());
        assert(monitor@.pending_readings =~= Seq::empty());
        assert(monitor@.pending_announcements =~= Seq::empty());
        assert(monitor@.warning_history =~= Seq::empty());
        monitor
    }

    /// Replaces the warning policy; a different policy also forgets which levels each
    /// controller was already warned about.
    pub fn set_warning_policy(&mut self, warning_policy: BatteryWarningPolicy)
        ensures
            final(self)@ == set_warning_policy_spec(old(self)@, warning_policy@),
            old(self)@.wf() ==> final(self)@.wf(),
    {
        if !self.warning_policy.same_policy(&warning_policy) {
            self.warning_history = Vec::new();
            assert(keyed_view(self.warning_history@) =~= Seq::empty());
        }
        self.warning_policy = warning_policy;
    }

    /// Forgets the levels that `current` has recovered from; a wired controller forgets all.
    fn clear_recovered_warnings(&mut self, id: &String, current: BatteryReading)
        ensures
            final(self)@ == (MonitorView {
                warning_history: clear_recovered_warnings_spec(old(self)@.warning_history, id@, current),
                ..old(self)@
            }),
    {
        if current.kind == BatteryKind::Wired {
            remove_entry(&mut self.warning_history, id);
            return;
        }
        let percent = match current.charge.estimated_percent() {
            Some(percent) => percent,
            None => return,
        };
        match find_key(&self.warning_history, id) {
            Some(i) => {
                let kept = self.warning_history[i].value.unrecovered(percent, current.charge);
                if kept.is_empty() {
                    remove_entry(&mut self.warning_history, id);
                } else {
                    set_entry(&mut self.warning_history, id.clone(), kept);
                }
            },
            None => {},
        }
    }

    /// Whether `warning` is news: its level is not yet in the controller's history.
    fn should_emit_warning(&self, id: &String, warning: &BatteryWarning) -> (emit: bool)
        ensures
            emit == should_emit_warning_spec(self@.warning_history, id@, warning@),
    {
        match get_value(&self.warning_history, id) {
            Some(history) => {
                let name = String::from_str(warning.level().name());
                !history.contains(&name)
            },
            None => true,
        }
    }

    /// Adds `level` to the controller's history.
    fn remember_warning(&mut self, id: &String, level: BatteryWarningLevel)
        ensures
            final(self)@ == (MonitorView {
                warning_history: record_warning(old(self)@.warning_history, id@, level@),
                ..old(self)@
            }),
    {
        let mut history = match get_value(&self.warning_history, id) {
            Some(history) => history.duplicate(),
            None => LevelHistory::new(),
        };
        history.insert(level);
        set_entry(&mut self.warning_history, id.clone(), history);
    }

    /// The warning a settled sample reaches and that the controller has not had yet.
    fn settled_warning(&self, id: &String, previous: &Controller, current: &Controller, confirmed: bool) -> (warning:
        Option<BatteryWarning>)
        requires
            id@ == current@.id,
        ensures
            warning_option_view(warning) == settled_warning(
                self@,
                self@.warning_history,
                previous@,
                current@,
                confirmed,
            ),
    {
        let warning = match self.warning_policy.warning_between(previous.battery(), current.battery()) {
            Some(warning) => Some(warning),
            None => if confirmed && warning_requires_current_reading(
                previous.battery().charge,
                current.battery().charge,
            ) {
                self.warning_policy.warning_for_current(current.battery())
            } else {
                None
            },
        };
        match warning {
            Some(warning) => if self.should_emit_warning(id, &warning) {
                Some(warning)
            } else {
                None
            },
            None => None,
        }
    }

    /// A controller seen for the first time.
    fn observe_new(&mut self, controller: Controller, id: String, now: u64) -> (events: Vec<ControllerEvent>)
        requires
            id@ == controller@.id,
        ensures
            (events_view(events@), final(self)@) == observe_new_controller(old(self)@, controller@, now),
    {
        remove_entry(&mut self.warning_history, &id);
        let battery = controller.battery();
        let stored = match confirmation_candidate(battery) {
            Some(candidate) => {
                set_entry(&mut self.pending_readings, id.clone(), PendingReading::confirming(candidate, now));
                set_entry(&mut self.pending_announcements, id.clone(), PendingAnnouncement::Connected);
                let kind = if battery.kind == BatteryKind::Wired {
                    BatteryKind::Unknown
                } else {
                    battery.kind
                };
                controller.with_battery(BatteryReading::new(kind, BatteryCharge::Unknown))
            },
            None => {
                if is_transient_unknown_reading(battery) {
                    set_entry(&mut self.pending_readings, id.clone(), PendingReading::awaiting_usable(now));
                    set_entry(&mut self.pending_announcements, id.clone(), PendingAnnouncement::BatteryStatus);
                }
                controller
            },
        };
        let held = match get_value(&self.pending_announcements, &id) {
            Some(PendingAnnouncement::Connected) => true,
            _ => false,
        };
        let ghost before = self.previous@;
        self.previous.push(stored.clone());
        assert(controllers_view(self.previous@) =~= controllers_view(before).push(stored@));
        let mut events: Vec<ControllerEvent> = Vec::new();
        if !held {
            events.push(ControllerEvent::Connected(stored));
        }
        assert(events_view(events@) =~= observe_new_controller(old(self)@, controller@, now).0);
        events
    }

    /// An unknown sample of the known controller at `index`.
    fn observe_unknown(&mut self, controller: Controller, id: String, index: usize, now: u64) -> (events: Vec<
        ControllerEvent,
    >)
        requires
            id@ == controller@.id,
            index < old(self)@.previous.len(),
        ensures
            (events_view(events@), final(self)@) == observe_unknown_sample(
                old(self)@,
                controller@,
                index as int,
                now,
            ),
    {
        let mut abandon = false;
        match find_key(&self.pending_readings, &id) {
            Some(i) => {
                let mut pending = self.pending_readings[i].value;
                if pending.is_due(now) {
                    if pending.defer_inconclusive(now) {
                        set_entry(&mut self.pending_readings, id.clone(), pending);
                    } else {
                        abandon = true;
                        remove_entry(&mut self.pending_readings, &id);
                    }
                }
            },
            None => {},
        }
        let previous = self.previous[index].clone();
        let ghost before = self.previous@;
        let kept = preserve_known_battery(&previous, controller);
        self.previous.set(index, kept);
        assert(controllers_view(self.previous@) =~= controllers_view(before).update(index as int, kept@));
        let mut events: Vec<ControllerEvent> = Vec::new();
        if abandon {
            match self.release_pending_connected(&id) {
                Some(event) => events.push(event),
                None => {},
            }
        }
        assert(events_view(events@) =~= observe_unknown_sample(old(self)@, controller@, index as int, now).0);
        events
    }

    /// Starts, or keeps, waiting for a sample to confirm `current`.
    fn hold_for_confirmation(&mut self, current: &Controller, id: &String, now: u64)
        requires
            id@ == current@.id,
        ensures
            final(self)@ == hold_for_confirmation(old(self)@, current@, now),
    {
        match confirmation_candidate(current.battery()) {
            Some(candidate) => {
                let restart = match get_value(&self.pending_readings, id) {
                    Some(pending) => pending.kind != PendingReadingKind::Confirming(candidate),
                    None => true,
                };
                if restart {
                    set_entry(&mut self.pending_readings, id.clone(), PendingReading::confirming(candidate, now));
                }
            },
            None => {},
        }
    }

    /// Takes a settled sample of the known controller at `index`.
    fn accept(&mut self, controller: Controller, id: String, index: usize, confirmed: bool) -> (events: Vec<
        ControllerEvent,
    >)
        requires
            id@ == controller@.id,
            index < old(self)@.previous.len(),
        ensures
            (events_view(events@), final(self)@) == accept_sample(old(self)@, controller@, index as int, confirmed),
    {
        let previous = self.previous[index].clone();
        remove_entry(&mut self.pending_readings, &id);
        self.clear_recovered_warnings(&id, controller.battery());
        let warning = self.settled_warning(&id, &previous, &controller, confirmed);
        match &warning {
            Some(warning) => self.remember_warning(&id, warning.level().clone()),
            None => {},
        }
        let ghost before = self.previous@;
        self.previous.set(index, controller.clone());
        assert(controllers_view(self.previous@) =~= controllers_view(before).update(index as int, controller@));
        let announcement = remove_entry(&mut self.pending_announcements, &id);
        let mut events: Vec<ControllerEvent> = Vec::new();
        match announcement {
            Some(PendingAnnouncement::Connected) => {
                events.push(ControllerEvent::Connected(controller));
                match warning {
                    Some(warning) => events.push(ControllerEvent::BatteryWarning { warning }),
                    None => {},
                }
            },
            Some(PendingAnnouncement::BatteryStatus) => {
                events.push(ControllerEvent::BatteryStatus { controller, warning });
            },
            None => match warning {
                Some(warning) => events.push(ControllerEvent::BatteryWarning { warning }),
                None => {},
            },
        }
        assert(events_view(events@) =~= accept_sample(old(self)@, controller@, index as int, confirmed).0);
        events
    }

    /// A sample of the known controller at `index`.
    fn observe_known(&mut self, controller: Controller, id: String, index: usize, now: u64) -> (events: Vec<
        ControllerEvent,
    >)
        requires
            id@ == controller@.id,
            index < old(self)@.previous.len(),
        ensures
            (events_view(events@), final(self)@) == observe_known_controller(
                old(self)@,
                controller@,
                index as int,
                now,
            ),
    {
        let previous = self.previous[index].clone();
        let is_unknown = is_transient_unknown_reading(controller.battery());
        match find_key(&self.pending_readings, &id) {
            Some(i) => {
                let mut pending = self.pending_readings[i].value;
                pending.observe(!is_unknown);
                set_entry(&mut self.pending_readings, id.clone(), pending);
            },
            None => {},
        }
        if is_unknown {
            return self.observe_unknown(controller, id, index, now);
        }
        let needs = needs_confirmation(previous.battery(), controller.battery());
        let confirmed = needs && match confirmation_candidate(controller.battery()) {
            Some(candidate) => match get_value(&self.pending_readings, &id) {
                Some(pending) => pending.kind == PendingReadingKind::Confirming(candidate) && pending.is_due(now),
                None => false,
            },
            None => false,
        };
        if needs && !confirmed {
            self.hold_for_confirmation(&controller, &id, now);
            return Vec::new();
        }
        self.accept(controller, id, index, confirmed)
    }

    /// One sample of a connected controller.
    pub fn observe_connected_at(&mut self, controller: Controller, now: u64) -> (events: Vec<ControllerEvent>)
        ensures
            (events_view(events@), final(self)@) == observe_connected_spec(old(self)@, controller@, now),
            old(self)@.wf() ==> final(self)@.wf(),
    {
        proof {
            if self@.wf() {
                lemma_observe_connected_wf(self@, controller@, now);
            }
        }
        let id = controller.id_string();
        match controller_position(&self.previous, &id) {
            Some(index) => self.observe_known(controller, id, index, now),
            None => self.observe_new(controller, id, now),
        }
    }

    /// One sample of a controller that is connected or, when `is_connected` is false, gone.
    pub fn observe_incremental_at(&mut self, controller: Controller, is_connected: bool, now: u64) -> (events: Vec<
        ControllerEvent,
    >)
        ensures
            is_connected ==> (events_view(events@), final(self)@) == observe_connected_spec(
                old(self)@,
                controller@,
                now,
            ),
            !is_connected ==> (events_view(events@), final(self)@) == ({
                let (event, m) = observe_disconnected_spec(old(self)@, controller@.id);
                (option_events(event), m)
            }),
            old(self)@.wf() ==> final(self)@.wf(),
    {
        proof {
            if self@.wf() {
                lemma_observe_disconnected_wf(self@, controller@.id);
            }
        }
        if is_connected {
            self.observe_connected_at(controller, now)
        } else {
            let id = controller.id_string();
            let mut events: Vec<ControllerEvent> = Vec::new();
            match self.observe_disconnected(&id) {
                Some(event) => events.push(event),
                None => {},
            }
            assert(events_view(events@) =~= option_events(observe_disconnected_spec(old(self)@, id@).0));
            events
        }
    }

    /// Forgets each controller in `ids`, in order, collecting the disconnection events.
    fn disconnect_each(&mut self, ids: &Vec<String>) -> (events: Vec<ControllerEvent>)
        ensures
            (events_view(events@), final(self)@) == disconnect_all(old(self)@, ids_view(ids@)),
    {
        let ghost start = self@;
        let ghost all = ids_view(ids@);
        let mut events: Vec<ControllerEvent> = Vec::new();
        let mut i: usize = 0;
        while i < ids.len()
            invariant
                i <= ids.len(),
                all == ids_view(ids@),
                all.len() == ids.len(),
                (events_view(events@), self@) == disconnect_all(start, all.take(i as int)),
            decreases ids.len() - i,
        {
            assert(all.take(i + 1).drop_last() =~= all.take(i as int));
            let ghost before = events@;
            match self.observe_disconnected(&ids[i]) {
                Some(event) => events.push(event),
                None => {},
            }
            assert(events_view(events@) =~= disconnect_all(start, all.take(i + 1)).0);
            i = i + 1;
        }
        assert(all.take(all.len() as int) =~= all);
        events
    }

    /// A full snapshot of the connected controllers: each is observed in order, then each
    /// known controller missing from the snapshot is disconnected.
    pub fn observe_current_at(&mut self, current: Vec<Controller>, now: u64) -> (events: Vec<ControllerEvent>)
        ensures
            (events_view(events@), final(self)@) == observe_current_spec(
                old(self)@,
                controllers_view(current@),
                now,
            ),
            old(self)@.wf() ==> final(self)@.wf(),
    {
        proof {
            if self@.wf() {
                lemma_observe_current_wf(self@, controllers_view(current@), now);
            }
        }
        let ghost start = self@;
        let ghost all = controllers_view(current@);
        let mut events: Vec<ControllerEvent> = Vec::new();
        let mut i: usize = 0;
        while i < current.len()
            invariant
                i <= current.len(),
                all == controllers_view(current@),
                all.len() == current.len(),
                (events_view(events@), self@) == observe_all(start, all.take(i as int), now),
            decreases current.len() - i,
        {
            assert(all.take(i + 1).drop_last() =~= all.take(i as int));
            let ghost before = events@;
            let mut more = self.observe_connected_at(current[i].clone(), now);
            let ghost added = more@;
            events.append(&mut more);
            assert(events_view(events@) =~= events_view(before) + events_view(added));
            i = i + 1;
        }
        assert(all.take(all.len() as int) =~= all);
        let gone = self.absent_from(&current);
        let ghost observed = events@;
        let mut more = self.disconnect_each(&gone);
        let ghost added = more@;
        events.append(&mut more);
        assert(events_view(events@) =~= events_view(observed) + events_view(added));
        events
    }

    /// The identities of known controllers that `current` lacks, in order.
    fn absent_from(&self, current: &Vec<Controller>) -> (ids: Vec<String>)
        ensures
            ids_view(ids@) == absent_ids(self@.previous, controllers_view(current@)),
    {
        let ghost all = self@.previous;
        let mut ids: Vec<String> = Vec::new();
        let mut i: usize = 0;
        while i < self.previous.len()
            invariant
                i <= self.previous.len(),
                all == self@.previous,
                all.len() == self.previous.len(),
                ids_view(ids@) == absent_ids(all.take(i as int), controllers_view(current@)),
            decreases self.previous.len() - i,
        {
            assert(all.take(i + 1).drop_last() =~= all.take(i as int));
            let id = self.previous[i].id_string();
            if controller_position(current, &id).is_none() {
                let ghost before = ids@;
                ids.push(id);
                assert(ids_view(ids@) =~= ids_view(before).push(all[i as int].id));
            }
            i = i + 1;
        }
        assert(all.take(all.len() as int) =~= all);
        ids
    }

    /// A refresh of the controllers that have pending readings: listed ones are observed;
    /// a due pending reading whose controller is missing is postponed, or the controller
    /// is disconnected once it has been missing too often.
    pub fn observe_pending_at(&mut self, current: Vec<Controller>, now: u64) -> (events: Vec<ControllerEvent>)
        ensures
            (events_view(events@), final(self)@) == observe_pending_spec(
                old(self)@,
                controllers_view(current@),
                now,
            ),
            old(self)@.wf() ==> final(self)@.wf(),
    {
        proof {
            if self@.wf() {
                lemma_observe_pending_wf(self@, controllers_view(current@), now);
            }
        }
        let ghost start = self@;
        let ghost all = controllers_view(current@);
        let mut events: Vec<ControllerEvent> = Vec::new();
        let mut i: usize = 0;
        while i < current.len()
            invariant
                i <= current.len(),
                all == controllers_view(current@),
                all.len() == current.len(),
                (events_view(events@), self@) == observe_pending_controllers(start, all.take(i as int), now),
            decreases current.len() - i,
        {
            assert(all.take(i + 1).drop_last() =~= all.take(i as int));
            let id = current[i].id_string();
            if find_key(&self.pending_readings, &id).is_some() {
                let ghost before = events@;
                let mut more = self.observe_connected_at(current[i].clone(), now);
                let ghost added = more@;
                events.append(&mut more);
                assert(events_view(events@) =~= events_view(before) + events_view(added));
            }
            i = i + 1;
        }
        assert(all.take(all.len() as int) =~= all);
        let expired = self.retain_present_readings(&current, now);
        let ghost observed = events@;
        let mut more = self.disconnect_each(&expired);
        let ghost added = more@;
        events.append(&mut more);
        assert(events_view(events@) =~= events_view(observed) + events_view(added));
        events
    }

    /// Keeps the pending readings of listed controllers and those not yet due; a due one
    /// of a missing controller is postponed, or dropped and returned.
    fn retain_present_readings(&mut self, current: &Vec<Controller>, now: u64) -> (expired: Vec<String>)
        ensures
            ({
                let (kept, gone) = retain_present(old(self)@.pending_readings, controllers_view(current@), now);
                &&& final(self)@ == (MonitorView { pending_readings: kept, ..old(self)@ })
                &&& ids_view(expired@) == gone
            }),
    {
        let ghost all = self@.pending_readings;
        let mut kept: Vec<Keyed<PendingReading>> = Vec::new();
        let mut expired: Vec<String> = Vec::new();
        let mut i: usize = 0;
        while i < self.pending_readings.len()
            invariant
                i <= self.pending_readings.len(),
                all == self@.pending_readings,
                all.len() == self.pending_readings.len(),
                (keyed_view(kept@), ids_view(expired@)) == retain_present(
                    all.take(i as int),
                    controllers_view(current@),
                    now,
                ),
            decreases self.pending_readings.len() - i,
        {
            assert(all.take(i + 1).drop_last() =~= all.take(i as int));
            let key = self.pending_readings[i].key.clone();
            let mut pending = self.pending_readings[i].value;
            let ghost kept_before = kept@;
            let ghost expired_before = expired@;
            if controller_position(current, &key).is_some() || !pending.is_due(now) {
                kept.push(Keyed { key, value: pending });
                assert(keyed_view(kept@) =~= keyed_view(kept_before).push(all[i as int]));
            } else if pending.defer_missing(now) {
                let ghost k = key@;
                kept.push(Keyed { key, value: pending });
                assert(keyed_view(kept@) =~= keyed_view(kept_before).push((k, pending)));
            } else {
                expired.push(key);
                assert(ids_view(expired@) =~= ids_view(expired_before).push(all[i as int].0));
            }
            i = i + 1;
        }
        assert(all.take(all.len() as int) =~= all);
        self.pending_readings = kept;
        expired
    }

    /// The time until the earliest pending reading is due, if any is pending.
    pub fn next_refresh_delay_at(&self, now: u64) -> (delay: Option<u64>)
        ensures
            delay == next_refresh_delay_spec(self@.pending_readings, now),
    {
        let ghost all = self@.pending_readings;
        let mut best: Option<u64> = None;
        let mut i: usize = 0;
        while i < self.pending_readings.len()
            invariant
                i <= self.pending_readings.len(),
                all == self@.pending_readings,
                all.len() == self.pending_readings.len(),
                best == next_refresh_delay_spec(all.take(i as int), now),
            decreases self.pending_readings.len() - i,
        {
            assert(all.take(i + 1).drop_last() =~= all.take(i as int));
            let delay = self.pending_readings[i].value.delay(now);
            best = match best {
                Some(current) => Some(if delay < current {
                    delay
                } else {
                    current
                }),
                None => Some(delay),
            };
            i = i + 1;
        }
        assert(all.take(all.len() as int) =~= all);
        best
    }

    /// A refresh that produced nothing usable: each due pending reading is postponed, or
    /// given up when postponed too often, which announces a held-back connection.
    pub fn defer_due_refreshes_at(&mut self, now: u64) -> (events: Vec<ControllerEvent>)
        ensures
            (events_view(events@), final(self)@) == defer_due_refreshes_spec(old(self)@, now),
            old(self)@.wf() ==> final(self)@.wf(),
    {
        proof {
            if self@.wf() {
                lemma_defer_due_refreshes_wf(self@, now);
            }
        }
        let ghost all = self@.pending_readings;
        let mut kept: Vec<Keyed<PendingReading>> = Vec::new();
        let mut abandoned: Vec<String> = Vec::new();
        let mut i: usize = 0;
        while i < self.pending_readings.len()
            invariant
                i <= self.pending_readings.len(),
                all == self@.pending_readings,
                all.len() == self.pending_readings.len(),
                (keyed_view(kept@), ids_view(abandoned@)) == retain_deferrable(all.take(i as int), now),
            decreases self.pending_readings.len() - i,
        {
            assert(all.take(i + 1).drop_last() =~= all.take(i as int));
            let key = self.pending_readings[i].key.clone();
            let mut pending = self.pending_readings[i].value;
            let ghost kept_before = kept@;
            let ghost abandoned_before = abandoned@;
            if !pending.is_due(now) {
                kept.push(Keyed { key, value: pending });
                assert(keyed_view(kept@) =~= keyed_view(kept_before).push(all[i as int]));
            } else if pending.defer_inconclusive(now) {
                let ghost k = key@;
                kept.push(Keyed { key, value: pending });
                assert(keyed_view(kept@) =~= keyed_view(kept_before).push((k, pending)));
            } else {
                abandoned.push(key);
                assert(ids_view(abandoned@) =~= ids_view(abandoned_before).push(all[i as int].0));
            }
            i = i + 1;
        }
        assert(all.take(all.len() as int) =~= all);
        self.pending_readings = kept;
        let ghost start = self@;
        let ghost ids = ids_view(abandoned@);
        let mut events: Vec<ControllerEvent> = Vec::new();
        let mut j: usize = 0;
        while j < abandoned.len()
            invariant
                j <= abandoned.len(),
                ids == ids_view(abandoned@),
                ids.len() == abandoned.len(),
                (events_view(events@), self@) == release_all(start, ids.take(j as int)),
            decreases abandoned.len() - j,
        {
            assert(ids.take(j + 1).drop_last() =~= ids.take(j as int));
            let ghost before = events@;
            match self.release_pending_connected(&abandoned[j]) {
                Some(event) => events.push(event),
                None => {},
            }
            assert(events_view(events@) =~= release_all(start, ids.take(j + 1)).0);
            j = j + 1;
        }
        assert(ids.take(ids.len() as int) =~= ids);
        events
    }

    /// A full snapshot of the connected controllers, taken now.
    pub fn observe_current(&mut self, current: Vec<Controller>) -> (events: Vec<ControllerEvent>)
        ensures
            exists|now: u64|
                (events_view(events@), final(self)@) == observe_current_spec(
                    old(self)@,
                    controllers_view(current@),
                    now,
                ),
            old(self)@.wf() ==> final(self)@.wf(),
    {
        let now = self.clock.now_nanos();
        self.observe_current_at(current, now)
    }

    /// One sample, taken now, of a controller that is connected or, when
    /// `is_connected` is false, gone.
    pub fn observe_incremental(&mut self, controller: Controller, is_connected: bool) -> (events: Vec<ControllerEvent>)
        ensures
            is_connected ==> exists|now: u64|
                (events_view(events@), final(self)@) == observe_connected_spec(old(self)@, controller@, now),
            !is_connected ==> (events_view(events@), final(self)@) == ({
                let (event, m) = observe_disconnected_spec(old(self)@, controller@.id);
                (option_events(event), m)
            }),
            old(self)@.wf() ==> final(self)@.wf(),
    {
        let now = self.clock.now_nanos();
        self.observe_incremental_at(controller, is_connected, now)
    }

    /// A refresh of the controllers with pending readings, taken now.
    pub fn observe_pending(&mut self, current: Vec<Controller>) -> (events: Vec<ControllerEvent>)
        ensures
            exists|now: u64|
                (events_view(events@), final(self)@) == observe_pending_spec(
                    old(self)@,
                    controllers_view(current@),
                    now,
                ),
            old(self)@.wf() ==> final(self)@.wf(),
    {
        let now = self.clock.now_nanos();
        self.observe_pending_at(current, now)
    }

    /// The time from now until the earliest pending reading is due.
    pub fn next_refresh_delay(&self) -> (delay: Option<u64>)
        ensures
            exists|now: u64| delay == next_refresh_delay_spec(self@.pending_readings, now),
    {
        let now = self.clock.now_nanos();
        self.next_refresh_delay_at(now)
    }

    /// A failed refresh, now.
    pub fn defer_due_refreshes(&mut self) -> (events: Vec<ControllerEvent>)
        ensures
            exists|now: u64| (events_view(events@), final(self)@) == defer_due_refreshes_spec(old(self)@, now),
            old(self)@.wf() ==> final(self)@.wf(),
    {
        let now = self.clock.now_nanos();
        self.defer_due_refreshes_at(now)
    }

    /// Announces the connection of a controller whose pending reading was given up.
    fn release_pending_connected(&mut self, id: &String) -> (event: Option<ControllerEvent>)
        ensures
            (option_events(event_option_view(event)), final(self)@) == release_pending_connected_spec(
                old(self)@,
                id@,
            ),
    {
        let announced = match get_value(&self.pending_announcements, id) {
            Some(PendingAnnouncement::Connected) => true,
            _ => false,
        };
        if !announced {
            return None;
        }
        remove_entry(&mut self.pending_announcements, id);
        match controller_position(&self.previous, id) {
            Some(i) => {
                let controller = self.previous[i].clone();
                Some(ControllerEvent::Connected(controller))
            },
            None => None,
        }
    }

    /// Forgets the controller with identity `id`.
    fn observe_disconnected(&mut self, id: &String) -> (event: Option<ControllerEvent>)
        ensures
            (event_option_view(event), final(self)@) == observe_disconnected_spec(old(self)@, id@),
    {
        remove_entry(&mut self.pending_readings, id);
        remove_entry(&mut self.pending_announcements, id);
        remove_entry(&mut self.warning_history, id);
        match controller_position(&self.previous, id) {
            Some(i) => {
                let ghost before = self.previous@;
                let controller = self.previous.remove(i);
                assert(controllers_view(self.previous@) =~= controllers_view(before).remove(i as int));
                Some(ControllerEvent::Disconnected(controller))
            },
            None => None,
        }
    }
}

impl Default for ControllerMonitor {
    fn default() -> (monitor: Self)
        ensures
            monitor@ == (MonitorView {
                previous: Seq::empty(),
                pending_readings: Seq::empty(),
                pending_announcements: Seq::empty(),
                warning_history: Seq::empty(),
                warning_policy: crate::controller::battery::battery_warning_level::default_levels_view(),
            }),
            monitor@.wf(),
    {
        Self::new(BatteryWarningPolicy::default())
    }
}

} // verus!
