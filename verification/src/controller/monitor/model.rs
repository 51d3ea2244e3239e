//! The model of the controller monitor: its state and how each observation changes it.
use vstd::prelude::*;

use super::keyed::{key_index, keys_unique, lookup, remove_key, set_key};
use super::pending::{
    ConfirmationCandidate, PendingAnnouncement, PendingReading, PendingReadingKind, pending_defer_inconclusive,
    pending_defer_missing, pending_delay, pending_is_due, pending_new, pending_observe,
};
use crate::controller::battery::battery_warning::WarningView;
use crate::controller::battery::battery_warning_level::LevelView;
use crate::controller::battery::battery_warning_policy::{warning_between_spec, warning_for_current_spec};
use crate::controller::battery::charge::{BatteryCharge, charge_percent};
use crate::controller::battery::kind::BatteryKind;
use crate::controller::battery::level::{BatteryLevel, level_percent};
use crate::controller::battery::reading::BatteryReading;
use crate::controller::controller::ControllerView;
use crate::controller::event::controller_event::EventView;

verus! {

/// A reading without a usable charge that is not explained by a wired connection.
pub open spec fn is_transient_unknown(reading: BatteryReading) -> bool {
    reading.kind != BatteryKind::Wired && charge_percent(reading.charge) is None
}

/// Readings that must persist before they are believed: wired, or low (at most 10%,
/// or the coarse levels empty and low).
pub open spec fn confirmation_candidate_spec(reading: BatteryReading) -> Option<ConfirmationCandidate> {
    if reading.kind == BatteryKind::Wired {
        Some(ConfirmationCandidate::Wired)
    } else if (reading.charge matches BatteryCharge::Precise(p) && p <= 10) || reading.charge
        == BatteryCharge::Coarse(BatteryLevel::Empty) || reading.charge == BatteryCharge::Coarse(
        BatteryLevel::Low,
    ) {
        Some(ConfirmationCandidate::Low)
    } else {
        None
    }
}

/// A candidate reading needs confirmation when it newly becomes wired, or falls (or
/// appears after an unknown charge) to a low charge.
pub open spec fn needs_confirmation_spec(previous: BatteryReading, current: BatteryReading) -> bool {
    if confirmation_candidate_spec(current) is None {
        false
    } else if current.kind == BatteryKind::Wired {
        previous.kind != BatteryKind::Wired
    } else {
        match (charge_percent(previous.charge), charge_percent(current.charge)) {
            (Some(p), Some(c)) => c < p,
            (None, Some(_)) => true,
            _ => false,
        }
    }
}

pub open spec fn same_charge_scale(previous: BatteryCharge, current: BatteryCharge) -> bool {
    (previous is Precise && current is Precise) || (previous is Coarse && current is Coarse)
}

/// A confirmed reading is also judged on its own when the previous charge is unknown or
/// was reported on the other scale.
pub open spec fn warning_requires_current_reading_spec(previous: BatteryCharge, current: BatteryCharge) -> bool {
    charge_percent(previous) is None || !same_charge_scale(previous, current)
}

/// The percentage above which a level counts as recovered, on the scale of `charge`.
pub open spec fn recovery_threshold(level: LevelView, charge: BatteryCharge) -> Option<u8> {
    let coarse_percent = match level.coarse_level {
        Some(l) => level_percent(l),
        None => None,
    };
    match charge {
        BatteryCharge::Precise(_) => if level.precise_threshold_percent is Some {
            level.precise_threshold_percent
        } else {
            coarse_percent
        },
        BatteryCharge::Coarse(_) => if coarse_percent is Some {
            coarse_percent
        } else {
            level.precise_threshold_percent
        },
        BatteryCharge::Unknown => None,
    }
}

/// An unknown sample keeps the last known battery of the controller.
pub open spec fn preserve_known_battery_spec(previous: ControllerView, current: ControllerView) -> ControllerView {
    if is_transient_unknown(current.battery) && (previous.battery.kind == BatteryKind::Wired
        || charge_percent(previous.battery.charge) is Some) {
        current.with_battery(previous.battery)
    } else {
        current
    }
}

/// The levels a controller has been warned about, by level name.
pub type LevelHistoryView = Seq<(Seq<char>, LevelView)>;

/// The model of a controller monitor.
pub struct MonitorView {
    pub previous: Seq<ControllerView>,
    pub pending_readings: Seq<(Seq<char>, PendingReading)>,
    pub pending_announcements: Seq<(Seq<char>, PendingAnnouncement)>,
    pub warning_history: Seq<(Seq<char>, LevelHistoryView)>,
    pub warning_policy: Seq<LevelView>,
}

/// Whether no two controllers share an identity.
pub open spec fn ids_unique(controllers: Seq<ControllerView>) -> bool {
    forall|i: int, j: int| 0 <= i < j < controllers.len() ==> controllers[i].id != controllers[j].id
}

/// Whether each controller's warning history names every level at most once.
pub open spec fn histories_wf(history: Seq<(Seq<char>, LevelHistoryView)>) -> bool {
    forall|i: int| 0 <= i < history.len() ==> keys_unique(#[trigger] history[i].1)
}

/// Whether every key of a table names a known controller.
pub open spec fn keys_known<V>(entries: Seq<(Seq<char>, V)>, previous: Seq<ControllerView>) -> bool {
    forall|i: int| 0 <= i < entries.len() ==> controller_index(previous, #[trigger] entries[i].0) is Some
}

impl MonitorView {
    /// The monitor's invariant: each controller is known once, and each table holds at
    /// most one entry per controller (and per level name), for known controllers only.
    pub open spec fn wf(self) -> bool {
        &&& ids_unique(self.previous)
        &&& keys_unique(self.pending_readings)
        &&& keys_unique(self.pending_announcements)
        &&& keys_unique(self.warning_history)
        &&& histories_wf(self.warning_history)
        &&& keys_known(self.pending_readings, self.previous)
        &&& keys_known(self.pending_announcements, self.previous)
        &&& keys_known(self.warning_history, self.previous)
    }
}

/// The position of the controller with identity `id`.
pub open spec fn controller_index(controllers: Seq<ControllerView>, id: Seq<char>) -> Option<int>
    decreases controllers.len(),
{
    if controllers.len() == 0 {
        None
    } else {
        let prefix = controller_index(controllers.drop_last(), id);
        if prefix is Some {
            prefix
        } else if controllers.last().id == id {
            Some(controllers.len() - 1)
        } else {
            None
        }
    }
}

pub proof fn lemma_controller_index_prefix(controllers: Seq<ControllerView>, k: int, id: Seq<char>)
    requires
        0 <= k <= controllers.len(),
        controller_index(controllers.take(k), id) is Some,
    ensures
        controller_index(controllers, id) == controller_index(controllers.take(k), id),
    decreases controllers.len(),
{
    if k == controllers.len() {
        assert(controllers.take(k) =~= controllers);
    } else {
        assert(controllers.drop_last().take(k) =~= controllers.take(k));
        lemma_controller_index_prefix(controllers.drop_last(), k, id);
    }
}

pub proof fn lemma_controller_index(controllers: Seq<ControllerView>, id: Seq<char>)
    ensures
        match controller_index(controllers, id) {
            Some(i) => 0 <= i < controllers.len() && controllers[i].id == id && forall|j: int|
                0 <= j < i ==> controllers[j].id != id,
            None => forall|j: int| 0 <= j < controllers.len() ==> controllers[j].id != id,
        },
    decreases controllers.len(),
{
    if controllers.len() > 0 {
        lemma_controller_index(controllers.drop_last(), id);
        assert(forall|j: int| 0 <= j < controllers.len() - 1 ==> controllers.drop_last()[j] == controllers[j]);
    }
}

/// Levels that the current charge has risen above are forgotten, so they can warn again;
/// a wired controller forgets them all.
pub open spec fn retain_unrecovered(history: LevelHistoryView, percent: u8, charge: BatteryCharge) -> LevelHistoryView
    decreases history.len(),
{
    if history.len() == 0 {
        history
    } else {
        let kept = retain_unrecovered(history.drop_last(), percent, charge);
        let entry = history.last();
        match recovery_threshold(entry.1, charge) {
            Some(threshold) => if percent <= threshold {
                kept.push(entry)
            } else {
                kept
            },
            None => kept.push(entry),
        }
    }
}

pub open spec fn clear_recovered_warnings_spec(
    history: Seq<(Seq<char>, LevelHistoryView)>,
    id: Seq<char>,
    current: BatteryReading,
) -> Seq<(Seq<char>, LevelHistoryView)> {
    if current.kind == BatteryKind::Wired {
        remove_key(history, id)
    } else {
        match charge_percent(current.charge) {
            None => history,
            Some(percent) => match lookup(history, id) {
                None => history,
                Some(levels) => {
                    let kept = retain_unrecovered(levels, percent, current.charge);
                    if kept.len() == 0 {
                        remove_key(history, id)
                    } else {
                        set_key(history, id, kept)
                    }
                },
            },
        }
    }
}

/// A warning is emitted unless its level is already in the controller's history.
pub open spec fn should_emit_warning_spec(
    history: Seq<(Seq<char>, LevelHistoryView)>,
    id: Seq<char>,
    warning: WarningView,
) -> bool {
    match lookup(history, id) {
        None => true,
        Some(levels) => key_index(levels, warning.level.name) is None,
    }
}

pub open spec fn record_warning(
    history: Seq<(Seq<char>, LevelHistoryView)>,
    id: Seq<char>,
    level: LevelView,
) -> Seq<(Seq<char>, LevelHistoryView)> {
    let levels = match lookup(history, id) {
        Some(levels) => levels,
        None => Seq::empty(),
    };
    set_key(history, id, set_key(levels, level.name, level))
}

pub open spec fn warning_events(warning: Option<WarningView>) -> Seq<EventView> {
    match warning {
        Some(w) => seq![EventView::BatteryWarning { warning: w }],
        None => Seq::empty(),
    }
}

/// Announces the connection of a controller whose pending reading was given up.
pub open spec fn release_pending_connected_spec(m: MonitorView, id: Seq<char>) -> (Seq<EventView>, MonitorView) {
    if lookup(m.pending_announcements, id) != Some(PendingAnnouncement::Connected) {
        (Seq::empty(), m)
    } else {
        let m2 = MonitorView { pending_announcements: remove_key(m.pending_announcements, id), ..m };
        match controller_index(m.previous, id) {
            Some(i) => (seq![EventView::Connected(m.previous[i])], m2),
            None => (Seq::empty(), m2),
        }
    }
}

/// Forgets a controller, announcing its disconnection when it was known.
pub open spec fn observe_disconnected_spec(m: MonitorView, id: Seq<char>) -> (Option<EventView>, MonitorView) {
    let m1 = MonitorView {
        pending_readings: remove_key(m.pending_readings, id),
        pending_announcements: remove_key(m.pending_announcements, id),
        warning_history: remove_key(m.warning_history, id),
        ..m
    };
    match controller_index(m.previous, id) {
        Some(i) => (
            Some(EventView::Disconnected(m.previous[i])),
            MonitorView { previous: m.previous.remove(i), ..m1 },
        ),
        None => (None, m1),
    }
}

/// A controller seen for the first time: a reading that needs confirmation is held back
/// (and so is the connection event); an unknown one is announced as connected and
/// retried soon.
pub open spec fn observe_new_controller(m: MonitorView, c: ControllerView, now: u64) -> (Seq<EventView>, MonitorView) {
    let id = c.id;
    let history = remove_key(m.warning_history, id);
    let candidate = confirmation_candidate_spec(c.battery);
    let pending = if candidate is Some {
        set_key(m.pending_readings, id, pending_new(PendingReadingKind::Confirming(candidate->0), now))
    } else if is_transient_unknown(c.battery) {
        set_key(m.pending_readings, id, pending_new(PendingReadingKind::AwaitingUsable, now))
    } else {
        m.pending_readings
    };
    let announcements = if candidate is Some {
        set_key(m.pending_announcements, id, PendingAnnouncement::Connected)
    } else if is_transient_unknown(c.battery) {
        set_key(m.pending_announcements, id, PendingAnnouncement::BatteryStatus)
    } else {
        m.pending_announcements
    };
    let stored = if candidate is Some {
        c.with_battery(
            BatteryReading {
                kind: if c.battery.kind == BatteryKind::Wired {
                    BatteryKind::Unknown
                } else {
                    c.battery.kind
                },
                charge: BatteryCharge::Unknown,
            },
        )
    } else {
        c
    };
    let m2 = MonitorView {
        previous: m.previous.push(stored),
        pending_readings: pending,
        pending_announcements: announcements,
        warning_history: history,
        ..m
    };
    let events = if lookup(announcements, id) == Some(PendingAnnouncement::Connected) {
        Seq::empty()
    } else {
        seq![EventView::Connected(stored)]
    };
    (events, m2)
}

/// An unknown sample of a known controller: the last known battery is kept, and a
/// pending reading that is due is postponed or, when postponed too often, given up.
pub open spec fn observe_unknown_sample(m: MonitorView, c: ControllerView, index: int, now: u64) -> (
    Seq<EventView>,
    MonitorView,
) {
    let id = c.id;
    let (abandon, pending) = match lookup(m.pending_readings, id) {
        Some(p) => if pending_is_due(p, now) {
            let (deferred, p2) = pending_defer_inconclusive(p, now);
            if deferred {
                (false, set_key(m.pending_readings, id, p2))
            } else {
                (true, remove_key(m.pending_readings, id))
            }
        } else {
            (false, m.pending_readings)
        },
        None => (false, m.pending_readings),
    };
    let m2 = MonitorView {
        previous: m.previous.update(index, preserve_known_battery_spec(m.previous[index], c)),
        pending_readings: pending,
        ..m
    };
    if abandon {
        release_pending_connected_spec(m2, id)
    } else {
        (Seq::empty(), m2)
    }
}

pub open spec fn is_confirmed(m: MonitorView, previous: ControllerView, c: ControllerView, now: u64) -> bool {
    let candidate = confirmation_candidate_spec(c.battery);
    &&& needs_confirmation_spec(previous.battery, c.battery)
    &&& candidate is Some
    &&& lookup(m.pending_readings, c.id) matches Some(p)
    &&& p.kind == PendingReadingKind::Confirming(candidate->0)
    &&& pending_is_due(p, now)
}

/// A usable sample that still needs confirmation starts (or keeps) waiting for it.
pub open spec fn hold_for_confirmation(m: MonitorView, c: ControllerView, now: u64) -> MonitorView {
    let id = c.id;
    let pending = match confirmation_candidate_spec(c.battery) {
        Some(candidate) => match lookup(m.pending_readings, id) {
            Some(p) => if p.kind != PendingReadingKind::Confirming(candidate) {
                set_key(m.pending_readings, id, pending_new(PendingReadingKind::Confirming(candidate), now))
            } else {
                m.pending_readings
            },
            None => set_key(m.pending_readings, id, pending_new(PendingReadingKind::Confirming(candidate), now)),
        },
        None => m.pending_readings,
    };
    MonitorView { pending_readings: pending, ..m }
}

/// The warning a settled sample reaches, unless the controller was already warned at
/// that level.
pub open spec fn settled_warning(
    m: MonitorView,
    history: Seq<(Seq<char>, LevelHistoryView)>,
    previous: ControllerView,
    c: ControllerView,
    confirmed: bool,
) -> Option<WarningView> {
    let candidate = match warning_between_spec(m.warning_policy, previous.battery, c.battery) {
        Some(w) => Some(w),
        None => if confirmed && warning_requires_current_reading_spec(
            previous.battery.charge,
            c.battery.charge,
        ) {
            warning_for_current_spec(m.warning_policy, c.battery)
        } else {
            None
        },
    };
    match candidate {
        Some(w) => if should_emit_warning_spec(history, c.id, w) {
            Some(w)
        } else {
            None
        },
        None => None,
    }
}

/// A sample that is accepted: it replaces the stored reading, may warn, and releases a
/// pending announcement.
pub open spec fn accept_sample(m: MonitorView, c: ControllerView, index: int, confirmed: bool) -> (
    Seq<EventView>,
    MonitorView,
) {
    let id = c.id;
    let previous = m.previous[index];
    let history = clear_recovered_warnings_spec(m.warning_history, id, c.battery);
    let warning = settled_warning(m, history, previous, c, confirmed);
    let history2 = match warning {
        Some(w) => record_warning(history, id, w.level),
        None => history,
    };
    let announcement = lookup(m.pending_announcements, id);
    let m2 = MonitorView {
        previous: m.previous.update(index, c),
        pending_readings: remove_key(m.pending_readings, id),
        pending_announcements: remove_key(m.pending_announcements, id),
        warning_history: history2,
        ..m
    };
    let events = match announcement {
        Some(PendingAnnouncement::Connected) => seq![EventView::Connected(c)] + warning_events(warning),
        Some(PendingAnnouncement::BatteryStatus) => seq![EventView::BatteryStatus { controller: c, warning }],
        None => warning_events(warning),
    };
    (events, m2)
}

/// A sample of a controller that is already known.
pub open spec fn observe_known_controller(m: MonitorView, c: ControllerView, index: int, now: u64) -> (
    Seq<EventView>,
    MonitorView,
) {
    let id = c.id;
    let is_unknown = is_transient_unknown(c.battery);
    let pending = match lookup(m.pending_readings, id) {
        Some(p) => set_key(m.pending_readings, id, pending_observe(p, !is_unknown)),
        None => m.pending_readings,
    };
    let m1 = MonitorView { pending_readings: pending, ..m };
    if is_unknown {
        observe_unknown_sample(m1, c, index, now)
    } else {
        let previous = m.previous[index];
        let confirmed = is_confirmed(m1, previous, c, now);
        if needs_confirmation_spec(previous.battery, c.battery) && !confirmed {
            (Seq::empty(), hold_for_confirmation(m1, c, now))
        } else {
            accept_sample(m1, c, index, confirmed)
        }
    }
}

/// One sample of a connected controller.
pub open spec fn observe_connected_spec(m: MonitorView, c: ControllerView, now: u64) -> (Seq<EventView>, MonitorView) {
    match controller_index(m.previous, c.id) {
        None => observe_new_controller(m, c, now),
        Some(index) => observe_known_controller(m, c, index, now),
    }
}

/// Samples of several controllers, in order.
pub open spec fn observe_all(m: MonitorView, current: Seq<ControllerView>, now: u64) -> (Seq<EventView>, MonitorView)
    decreases current.len(),
{
    if current.len() == 0 {
        (Seq::empty(), m)
    } else {
        let (events, m1) = observe_all(m, current.drop_last(), now);
        let (more, m2) = observe_connected_spec(m1, current.last(), now);
        (events + more, m2)
    }
}

pub open spec fn option_events(event: Option<EventView>) -> Seq<EventView> {
    match event {
        Some(e) => seq![e],
        None => Seq::empty(),
    }
}

/// Forgets several controllers, in order.
pub open spec fn disconnect_all(m: MonitorView, ids: Seq<Seq<char>>) -> (Seq<EventView>, MonitorView)
    decreases ids.len(),
{
    if ids.len() == 0 {
        (Seq::empty(), m)
    } else {
        let (events, m1) = disconnect_all(m, ids.drop_last());
        let (event, m2) = observe_disconnected_spec(m1, ids.last());
        (events + option_events(event), m2)
    }
}

/// The identities of known controllers that are missing from `current`.
pub open spec fn absent_ids(previous: Seq<ControllerView>, current: Seq<ControllerView>) -> Seq<Seq<char>>
    decreases previous.len(),
{
    if previous.len() == 0 {
        Seq::empty()
    } else {
        let ids = absent_ids(previous.drop_last(), current);
        if controller_index(current, previous.last().id) is Some {
            ids
        } else {
            ids.push(previous.last().id)
        }
    }
}

/// A full snapshot: every listed controller is observed, then every known controller
/// that the snapshot lacks is disconnected.
pub open spec fn observe_current_spec(m: MonitorView, current: Seq<ControllerView>, now: u64) -> (
    Seq<EventView>,
    MonitorView,
) {
    let (events, m1) = observe_all(m, current, now);
    let (gone, m2) = disconnect_all(m1, absent_ids(m1.previous, current));
    (events + gone, m2)
}

/// Observes the listed controllers that have a pending reading.
pub open spec fn observe_pending_controllers(m: MonitorView, current: Seq<ControllerView>, now: u64) -> (
    Seq<EventView>,
    MonitorView,
)
    decreases current.len(),
{
    if current.len() == 0 {
        (Seq::empty(), m)
    } else {
        let (events, m1) = observe_pending_controllers(m, current.drop_last(), now);
        let c = current.last();
        if key_index(m1.pending_readings, c.id) is Some {
            let (more, m2) = observe_connected_spec(m1, c, now);
            (events + more, m2)
        } else {
            (events, m1)
        }
    }
}

/// Pending readings whose controller is missing from a refresh: a due one is postponed,
/// or given up (and returned) when postponed too often.
pub open spec fn retain_present(
    pending: Seq<(Seq<char>, PendingReading)>,
    current: Seq<ControllerView>,
    now: u64,
) -> (Seq<(Seq<char>, PendingReading)>, Seq<Seq<char>>)
    decreases pending.len(),
{
    if pending.len() == 0 {
        (Seq::empty(), Seq::empty())
    } else {
        let (kept, expired) = retain_present(pending.drop_last(), current, now);
        let (id, p) = pending.last();
        if controller_index(current, id) is Some || !pending_is_due(p, now) {
            (kept.push((id, p)), expired)
        } else {
            let (deferred, p2) = pending_defer_missing(p, now);
            if deferred {
                (kept.push((id, p2)), expired)
            } else {
                (kept, expired.push(id))
            }
        }
    }
}

/// A refresh of the controllers with pending readings.
pub open spec fn observe_pending_spec(m: MonitorView, current: Seq<ControllerView>, now: u64) -> (
    Seq<EventView>,
    MonitorView,
) {
    let (events, m1) = observe_pending_controllers(m, current, now);
    let (kept, expired) = retain_present(m1.pending_readings, current, now);
    let (gone, m2) = disconnect_all(MonitorView { pending_readings: kept, ..m1 }, expired);
    (events + gone, m2)
}

/// The time until the earliest pending reading is due.
pub open spec fn next_refresh_delay_spec(pending: Seq<(Seq<char>, PendingReading)>, now: u64) -> Option<u64>
    decreases pending.len(),
{
    if pending.len() == 0 {
        None
    } else {
        let d = pending_delay(pending.last().1, now);
        match next_refresh_delay_spec(pending.drop_last(), now) {
            Some(best) => Some(if d < best { d } else { best }),
            None => Some(d),
        }
    }
}

/// Due pending readings whose refresh failed: postponed, or given up when postponed too often.
pub open spec fn retain_deferrable(pending: Seq<(Seq<char>, PendingReading)>, now: u64) -> (
    Seq<(Seq<char>, PendingReading)>,
    Seq<Seq<char>>,
)
    decreases pending.len(),
{
    if pending.len() == 0 {
        (Seq::empty(), Seq::empty())
    } else {
        let (kept, abandoned) = retain_deferrable(pending.drop_last(), now);
        let (id, p) = pending.last();
        if !pending_is_due(p, now) {
            (kept.push((id, p)), abandoned)
        } else {
            let (deferred, p2) = pending_defer_inconclusive(p, now);
            if deferred {
                (kept.push((id, p2)), abandoned)
            } else {
                (kept, abandoned.push(id))
            }
        }
    }
}

pub open spec fn release_all(m: MonitorView, ids: Seq<Seq<char>>) -> (Seq<EventView>, MonitorView)
    decreases ids.len(),
{
    if ids.len() == 0 {
        (Seq::empty(), m)
    } else {
        let (events, m1) = release_all(m, ids.drop_last());
        let (more, m2) = release_pending_connected_spec(m1, ids.last());
        (events + more, m2)
    }
}

/// A failed refresh: due pending readings are postponed or given up.
pub open spec fn defer_due_refreshes_spec(m: MonitorView, now: u64) -> (Seq<EventView>, MonitorView) {
    let (kept, abandoned) = retain_deferrable(m.pending_readings, now);
    release_all(MonitorView { pending_readings: kept, ..m }, abandoned)
}

/// A new policy replaces the old one; a different policy also forgets past warnings.
pub open spec fn set_warning_policy_spec(m: MonitorView, policy: Seq<LevelView>) -> MonitorView {
    MonitorView {
        warning_history: if m.warning_policy != policy {
            Seq::empty()
        } else {
            m.warning_history
        },
        warning_policy: policy,
        ..m
    }
}


/// Which readings must persist before they are believed: a wired one, and a wireless one
/// at 10% or below, or at the coarse levels empty and low. A change to such a reading
/// needs confirmation when it newly becomes wired, or when its charge falls (or first
/// becomes known) into that range; every other change is believed at once.
pub proof fn law_only_wired_and_critical_readings_wait_for_confirmation(
    previous: BatteryReading,
    current: BatteryReading,
)
    ensures
        current.kind == BatteryKind::Wired ==> confirmation_candidate_spec(current) == Some(
            ConfirmationCandidate::Wired,
        ),
        current.kind != BatteryKind::Wired ==> ((confirmation_candidate_spec(current) == Some(
            ConfirmationCandidate::Low,
        )) == ((current.charge matches BatteryCharge::Precise(p) && p <= 10) || current.charge
            == BatteryCharge::Coarse(BatteryLevel::Empty) || current.charge == BatteryCharge::Coarse(
            BatteryLevel::Low,
        ))),
        current.kind != BatteryKind::Wired ==> confirmation_candidate_spec(current) != Some(
            ConfirmationCandidate::Wired,
        ),
        current.kind == BatteryKind::Wired ==> needs_confirmation_spec(previous, current) == (previous.kind
            != BatteryKind::Wired),
        current.kind != BatteryKind::Wired && confirmation_candidate_spec(current) is Some ==> needs_confirmation_spec(
            previous,
            current,
        ) == (match (charge_percent(previous.charge), charge_percent(current.charge)) {
            (Some(p), Some(c)) => c < p,
            (None, Some(_)) => true,
            _ => false,
        }),
        confirmation_candidate_spec(current) is None ==> !needs_confirmation_spec(previous, current),
{
}

} // verus!
