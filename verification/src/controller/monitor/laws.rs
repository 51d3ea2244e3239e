//! What every operation of the controller monitor keeps, and what it promises.
use vstd::prelude::*;

use super::keyed::{
    key_index, keys_unique, lemma_key_index, lemma_remove_key, lemma_set_key, lookup, remove_key, set_key,
};
use super::model::{
    LevelHistoryView, MonitorView, accept_sample, clear_recovered_warnings_spec, confirmation_candidate_spec,
    controller_index, histories_wf, ids_unique, keys_known, is_confirmed, is_transient_unknown, lemma_controller_index,
    needs_confirmation_spec, observe_connected_spec, observe_disconnected_spec, observe_known_controller,
    observe_new_controller, preserve_known_battery_spec, record_warning, release_pending_connected_spec,
    retain_unrecovered, settled_warning, observe_all, disconnect_all, observe_current_spec, absent_ids,
    observe_pending_controllers, retain_present, observe_pending_spec, retain_deferrable, release_all,
    defer_due_refreshes_spec, set_warning_policy_spec, next_refresh_delay_spec, should_emit_warning_spec,
};
use crate::controller::battery::battery_warning::WarningView;
use crate::controller::battery::battery_warning_policy::warning_between_spec;
use super::pending::{
    MAX_DEFERRED_REFRESHES, PendingAnnouncement, PendingReading, PendingReadingKind, pending_defer_inconclusive,
    pending_defer_missing, pending_delay, pending_new, retry_delay_spec, saturating_add,
};
use crate::controller::event::controller_event::EventView;
use crate::controller::battery::battery_warning_level::LevelView;
use crate::controller::battery::charge::BatteryCharge;
use crate::controller::controller::ControllerView;

verus! {

proof fn lemma_histories_set(history: Seq<(Seq<char>, LevelHistoryView)>, id: Seq<char>, levels: LevelHistoryView)
    requires
        histories_wf(history),
        keys_unique(levels),
    ensures
        histories_wf(set_key(history, id, levels)),
{
    let result = set_key(history, id, levels);
    lemma_key_index(history, id);
    assert forall|i: int| 0 <= i < result.len() implies keys_unique(#[trigger] result[i].1) by {
        match key_index(history, id) {
            Some(k) => if i != k {
                assert(result[i] == history[i]);
            },
            None => if i < history.len() {
                assert(result[i] == history[i]);
            },
        }
    }
}

pub(crate) proof fn lemma_histories_remove(history: Seq<(Seq<char>, LevelHistoryView)>, id: Seq<char>)
    requires
        histories_wf(history),
    ensures
        histories_wf(remove_key(history, id)),
{
    let result = remove_key(history, id);
    match key_index(history, id) {
        Some(k) => {
            lemma_key_index(history, id);
            assert forall|i: int| 0 <= i < result.len() implies keys_unique(#[trigger] result[i].1) by {
                if i < k {
                    assert(result[i] == history[i]);
                } else {
                    assert(result[i] == history[i + 1]);
                }
            }
        },
        None => {},
    }
}

pub(crate) proof fn lemma_retain_unrecovered(history: LevelHistoryView, percent: u8, charge: BatteryCharge)
    requires
        keys_unique(history),
    ensures
        keys_unique(retain_unrecovered(history, percent, charge)),
        forall|i: int|
            0 <= i < retain_unrecovered(history, percent, charge).len() ==> key_index(
                history,
                #[trigger] retain_unrecovered(history, percent, charge)[i].0,
            ) is Some,
    decreases history.len(),
{
    if history.len() > 0 {
        let prefix = history.drop_last();
        let last = history.last();
        assert(keys_unique(prefix));
        lemma_retain_unrecovered(prefix, percent, charge);
        let kept = retain_unrecovered(prefix, percent, charge);
        assert forall|i: int| 0 <= i < kept.len() implies kept[i].0 != last.0 && key_index(
            history,
            kept[i].0,
        ) is Some by {
            lemma_key_index(prefix, kept[i].0);
            let j = key_index(prefix, kept[i].0)->0;
            assert(history[j].0 == kept[i].0);
            assert(history.take(history.len() - 1) =~= prefix);
            super::keyed::lemma_key_index_prefix(history, history.len() - 1, kept[i].0);
        }
        lemma_key_index(history, last.0);
        assert(history[history.len() - 1].0 == last.0);
    }
}

proof fn lemma_ids_unique_remove(controllers: Seq<ControllerView>, i: int)
    requires
        ids_unique(controllers),
        0 <= i < controllers.len(),
    ensures
        ids_unique(controllers.remove(i)),
{
    let result = controllers.remove(i);
    assert forall|a: int, b: int| 0 <= a < b < result.len() implies result[a].id != result[b].id by {
        let a0 = if a < i { a } else { a + 1 };
        let b0 = if b < i { b } else { b + 1 };
        assert(result[a] == controllers[a0]);
        assert(result[b] == controllers[b0]);
    }
}

proof fn lemma_ids_unique_update(controllers: Seq<ControllerView>, i: int, c: ControllerView)
    requires
        ids_unique(controllers),
        0 <= i < controllers.len(),
        c.id == controllers[i].id,
    ensures
        ids_unique(controllers.update(i, c)),
{
}

proof fn lemma_ids_unique_push(controllers: Seq<ControllerView>, c: ControllerView)
    requires
        ids_unique(controllers),
        controller_index(controllers, c.id) is None,
    ensures
        ids_unique(controllers.push(c)),
{
    lemma_controller_index(controllers, c.id);
    let result = controllers.push(c);
    assert forall|a: int, b: int| 0 <= a < b < result.len() implies result[a].id != result[b].id by {
        if b == controllers.len() {
            assert(result[a] == controllers[a]);
        }
    }
}


proof fn lemma_known_push(controllers: Seq<ControllerView>, c: ControllerView, k: Seq<char>)
    requires
        controller_index(controllers, k) is Some || k == c.id,
    ensures
        controller_index(controllers.push(c), k) is Some,
{
    lemma_controller_index(controllers, k);
    lemma_controller_index(controllers.push(c), k);
    match controller_index(controllers, k) {
        Some(j) => assert(controllers.push(c)[j].id == k),
        None => assert(controllers.push(c)[controllers.len() as int].id == k),
    }
}

proof fn lemma_known_update(controllers: Seq<ControllerView>, i: int, c: ControllerView, k: Seq<char>)
    requires
        0 <= i < controllers.len(),
        c.id == controllers[i].id,
    ensures
        (controller_index(controllers.update(i, c), k) is Some) == (controller_index(controllers, k) is Some),
{
    let updated = controllers.update(i, c);
    lemma_controller_index(controllers, k);
    lemma_controller_index(updated, k);
    match controller_index(controllers, k) {
        Some(j) => assert(updated[j].id == k),
        None => {},
    }
    match controller_index(updated, k) {
        Some(j) => assert(controllers[j].id == k),
        None => {},
    }
}

proof fn lemma_known_remove(controllers: Seq<ControllerView>, i: int, k: Seq<char>)
    requires
        0 <= i < controllers.len(),
        controllers[i].id != k,
        controller_index(controllers, k) is Some,
    ensures
        controller_index(controllers.remove(i), k) is Some,
{
    let removed = controllers.remove(i);
    lemma_controller_index(controllers, k);
    lemma_controller_index(removed, k);
    let j = controller_index(controllers, k)->0;
    if j < i {
        assert(removed[j] == controllers[j]);
    } else {
        assert(removed[j - 1] == controllers[j]);
    }
}

proof fn lemma_keys_known_push<V>(entries: Seq<(Seq<char>, V)>, controllers: Seq<ControllerView>, c: ControllerView)
    requires
        keys_known(entries, controllers),
    ensures
        keys_known(entries, controllers.push(c)),
{
    assert forall|i: int| 0 <= i < entries.len() implies controller_index(controllers.push(c), #[trigger] entries[i].0)
        is Some by {
        lemma_known_push(controllers, c, entries[i].0);
    }
}

proof fn lemma_keys_known_update<V>(
    entries: Seq<(Seq<char>, V)>,
    controllers: Seq<ControllerView>,
    i: int,
    c: ControllerView,
)
    requires
        keys_known(entries, controllers),
        0 <= i < controllers.len(),
        c.id == controllers[i].id,
    ensures
        keys_known(entries, controllers.update(i, c)),
{
    assert forall|j: int| 0 <= j < entries.len() implies controller_index(
        controllers.update(i, c),
        #[trigger] entries[j].0,
    ) is Some by {
        lemma_known_update(controllers, i, c, entries[j].0);
    }
}

proof fn lemma_keys_known_drop_controller<V>(entries: Seq<(Seq<char>, V)>, controllers: Seq<ControllerView>, i: int)
    requires
        keys_known(entries, controllers),
        0 <= i < controllers.len(),
        key_index(entries, controllers[i].id) is None,
    ensures
        keys_known(entries, controllers.remove(i)),
{
    lemma_key_index(entries, controllers[i].id);
    assert forall|j: int| 0 <= j < entries.len() implies controller_index(controllers.remove(i), #[trigger] entries[j].0)
        is Some by {
        lemma_known_remove(controllers, i, entries[j].0);
    }
}

pub(crate) proof fn lemma_keys_known_set<V>(entries: Seq<(Seq<char>, V)>, controllers: Seq<ControllerView>, id: Seq<char>, v: V)
    requires
        keys_known(entries, controllers),
        controller_index(controllers, id) is Some,
    ensures
        keys_known(set_key(entries, id, v), controllers),
{
    lemma_key_index(entries, id);
    let result = set_key(entries, id, v);
    assert forall|i: int| 0 <= i < result.len() implies controller_index(controllers, #[trigger] result[i].0) is Some by {
        match key_index(entries, id) {
            Some(k) => if i != k {
                assert(result[i] == entries[i]);
            },
            None => if i < entries.len() {
                assert(result[i] == entries[i]);
            },
        }
    }
}

pub(crate) proof fn lemma_keys_known_remove<V>(entries: Seq<(Seq<char>, V)>, controllers: Seq<ControllerView>, id: Seq<char>)
    requires
        keys_known(entries, controllers),
    ensures
        keys_known(remove_key(entries, id), controllers),
{
    lemma_key_index(entries, id);
    let result = remove_key(entries, id);
    match key_index(entries, id) {
        Some(k) => {
            assert forall|i: int| 0 <= i < result.len() implies controller_index(controllers, #[trigger] result[i].0)
                is Some by {
                if i < k {
                    assert(result[i] == entries[i]);
                } else {
                    assert(result[i] == entries[i + 1]);
                }
            }
        },
        None => {},
    }
}

pub(crate) proof fn lemma_keys_known_subset<V, W>(
    entries: Seq<(Seq<char>, V)>,
    kept: Seq<(Seq<char>, W)>,
    controllers: Seq<ControllerView>,
)
    requires
        keys_known(entries, controllers),
        forall|i: int| 0 <= i < kept.len() ==> key_index(entries, #[trigger] kept[i].0) is Some,
    ensures
        keys_known(kept, controllers),
{
    assert forall|i: int| 0 <= i < kept.len() implies controller_index(controllers, #[trigger] kept[i].0) is Some by {
        lemma_key_index(entries, kept[i].0);
        let j = key_index(entries, kept[i].0)->0;
        assert(entries[j].0 == kept[i].0);
    }
}

/// Announcing a held-back connection keeps the monitor well formed.
pub proof fn lemma_release_pending_connected_wf(m: MonitorView, id: Seq<char>)
    requires
        m.wf(),
    ensures
        release_pending_connected_spec(m, id).1.wf(),
{
    lemma_remove_key(m.pending_announcements, id);
    lemma_keys_known_remove(m.pending_announcements, m.previous, id);
}

/// Forgetting a controller keeps the monitor well formed.
pub proof fn lemma_observe_disconnected_wf(m: MonitorView, id: Seq<char>)
    requires
        m.wf(),
    ensures
        observe_disconnected_spec(m, id).1.wf(),
{
    lemma_remove_key(m.pending_readings, id);
    lemma_remove_key(m.pending_announcements, id);
    lemma_remove_key(m.warning_history, id);
    lemma_histories_remove(m.warning_history, id);
    lemma_keys_known_remove(m.pending_readings, m.previous, id);
    lemma_keys_known_remove(m.pending_announcements, m.previous, id);
    lemma_keys_known_remove(m.warning_history, m.previous, id);
    lemma_controller_index(m.previous, id);
    match controller_index(m.previous, id) {
        Some(i) => {
            lemma_ids_unique_remove(m.previous, i);
            lemma_keys_known_drop_controller(remove_key(m.pending_readings, id), m.previous, i);
            lemma_keys_known_drop_controller(remove_key(m.pending_announcements, id), m.previous, i);
            lemma_keys_known_drop_controller(remove_key(m.warning_history, id), m.previous, i);
        },
        None => {},
    }
}

pub(crate) proof fn lemma_clear_recovered_wf(
    history: Seq<(Seq<char>, LevelHistoryView)>,
    controllers: Seq<ControllerView>,
    id: Seq<char>,
    current: crate::controller::battery::reading::BatteryReading,
)
    requires
        keys_unique(history),
        histories_wf(history),
        keys_known(history, controllers),
        controller_index(controllers, id) is Some,
    ensures
        keys_unique(clear_recovered_warnings_spec(history, id, current)),
        histories_wf(clear_recovered_warnings_spec(history, id, current)),
        keys_known(clear_recovered_warnings_spec(history, id, current), controllers),
{
    lemma_remove_key(history, id);
    lemma_histories_remove(history, id);
    lemma_keys_known_remove(history, controllers, id);
    lemma_key_index(history, id);
    match key_index(history, id) {
        Some(k) => {
            match crate::controller::battery::charge::charge_percent(current.charge) {
                Some(percent) => {
                    assert(keys_unique(history[k].1));
                    lemma_retain_unrecovered(history[k].1, percent, current.charge);
                    let kept = retain_unrecovered(history[k].1, percent, current.charge);
                    lemma_set_key(history, id, kept);
                    lemma_histories_set(history, id, kept);
                    lemma_keys_known_set(history, controllers, id, kept);
                },
                None => {},
            }
        },
        None => {},
    }
}

proof fn lemma_record_warning_wf(
    history: Seq<(Seq<char>, LevelHistoryView)>,
    controllers: Seq<ControllerView>,
    id: Seq<char>,
    level: LevelView,
)
    requires
        keys_unique(history),
        histories_wf(history),
        keys_known(history, controllers),
        controller_index(controllers, id) is Some,
    ensures
        keys_unique(record_warning(history, id, level)),
        histories_wf(record_warning(history, id, level)),
        keys_known(record_warning(history, id, level), controllers),
{
    lemma_key_index(history, id);
    let levels = match lookup(history, id) {
        Some(levels) => levels,
        None => Seq::empty(),
    };
    match key_index(history, id) {
        Some(k) => assert(keys_unique(history[k].1)),
        None => {},
    }
    lemma_set_key(levels, level.name, level);
    lemma_set_key(history, id, set_key(levels, level.name, level));
    lemma_histories_set(history, id, set_key(levels, level.name, level));
    lemma_keys_known_set(history, controllers, id, set_key(levels, level.name, level));
}

/// A sample of a controller keeps the monitor well formed.
pub proof fn lemma_observe_connected_wf(m: MonitorView, c: ControllerView, now: u64)
    requires
        m.wf(),
    ensures
        observe_connected_spec(m, c, now).1.wf(),
{
    let id = c.id;
    lemma_controller_index(m.previous, id);
    match controller_index(m.previous, id) {
        None => {
            let m2 = observe_new_controller(m, c, now).1;
            let stored = m2.previous.last();
            assert(m2.previous == m.previous.push(stored));
            assert(stored.id == id);
            let grown = m.previous.push(stored);
            lemma_ids_unique_push(m.previous, stored);
            lemma_known_push(m.previous, stored, id);
            lemma_keys_known_push(m.pending_readings, m.previous, stored);
            lemma_keys_known_push(m.pending_announcements, m.previous, stored);
            lemma_keys_known_push(m.warning_history, m.previous, stored);
            lemma_remove_key(m.warning_history, id);
            lemma_histories_remove(m.warning_history, id);
            lemma_keys_known_remove(m.warning_history, grown, id);
            let candidate = confirmation_candidate_spec(c.battery);
            if candidate is Some {
                let p = super::pending::pending_new(super::pending::PendingReadingKind::Confirming(candidate->0), now);
                lemma_set_key(m.pending_readings, id, p);
                lemma_keys_known_set(m.pending_readings, grown, id, p);
                lemma_set_key(m.pending_announcements, id, PendingAnnouncement::Connected);
                lemma_keys_known_set(m.pending_announcements, grown, id, PendingAnnouncement::Connected);
            } else if is_transient_unknown(c.battery) {
                let p = super::pending::pending_new(super::pending::PendingReadingKind::AwaitingUsable, now);
                lemma_set_key(m.pending_readings, id, p);
                lemma_keys_known_set(m.pending_readings, grown, id, p);
                lemma_set_key(m.pending_announcements, id, PendingAnnouncement::BatteryStatus);
                lemma_keys_known_set(m.pending_announcements, grown, id, PendingAnnouncement::BatteryStatus);
            }
        },
        Some(index) => {
            lemma_observe_known_wf(m, c, index, now);
        },
    }
}

proof fn lemma_observe_known_wf(m: MonitorView, c: ControllerView, index: int, now: u64)
    requires
        m.wf(),
        0 <= index < m.previous.len(),
        m.previous[index].id == c.id,
    ensures
        observe_known_controller(m, c, index, now).1.wf(),
{
    let id = c.id;
    lemma_controller_index(m.previous, id);
    assert(controller_index(m.previous, id) is Some);
    let is_unknown = is_transient_unknown(c.battery);
    match lookup(m.pending_readings, id) {
        Some(p) => {
            lemma_set_key(m.pending_readings, id, super::pending::pending_observe(p, !is_unknown));
            lemma_keys_known_set(m.pending_readings, m.previous, id, super::pending::pending_observe(p, !is_unknown));
        },
        None => {},
    }
    let pending = match lookup(m.pending_readings, id) {
        Some(p) => set_key(m.pending_readings, id, super::pending::pending_observe(p, !is_unknown)),
        None => m.pending_readings,
    };
    let m1 = MonitorView { pending_readings: pending, ..m };
    assert(m1.wf());
    if is_unknown {
        match lookup(m1.pending_readings, id) {
            Some(p) => {
                let (_, p2) = super::pending::pending_defer_inconclusive(p, now);
                lemma_set_key(m1.pending_readings, id, p2);
                lemma_keys_known_set(m1.pending_readings, m1.previous, id, p2);
                lemma_remove_key(m1.pending_readings, id);
                lemma_keys_known_remove(m1.pending_readings, m1.previous, id);
            },
            None => {},
        }
        let kept = preserve_known_battery_spec(m1.previous[index], c);
        lemma_ids_unique_update(m1.previous, index, kept);
        let (abandon, pending2) = match lookup(m1.pending_readings, id) {
            Some(p) => if super::pending::pending_is_due(p, now) {
                let (deferred, p2) = super::pending::pending_defer_inconclusive(p, now);
                if deferred {
                    (false, set_key(m1.pending_readings, id, p2))
                } else {
                    (true, remove_key(m1.pending_readings, id))
                }
            } else {
                (false, m1.pending_readings)
            },
            None => (false, m1.pending_readings),
        };
        lemma_keys_known_update(pending2, m1.previous, index, kept);
        lemma_keys_known_update(m1.pending_announcements, m1.previous, index, kept);
        lemma_keys_known_update(m1.warning_history, m1.previous, index, kept);
        let m2 = MonitorView { previous: m1.previous.update(index, kept), pending_readings: pending2, ..m1 };
        assert(m2.wf());
        lemma_release_pending_connected_wf(m2, id);
    } else {
        let previous = m.previous[index];
        if needs_confirmation_spec(previous.battery, c.battery) && !is_confirmed(m1, previous, c, now) {
            match confirmation_candidate_spec(c.battery) {
                Some(candidate) => {
                    let p = super::pending::pending_new(super::pending::PendingReadingKind::Confirming(candidate), now);
                    lemma_set_key(m1.pending_readings, id, p);
                    lemma_keys_known_set(m1.pending_readings, m1.previous, id, p);
                },
                None => {},
            }
        } else {
            lemma_accept_wf(m1, c, index, is_confirmed(m1, previous, c, now));
        }
    }
}

proof fn lemma_accept_wf(m: MonitorView, c: ControllerView, index: int, confirmed: bool)
    requires
        m.wf(),
        0 <= index < m.previous.len(),
        m.previous[index].id == c.id,
    ensures
        accept_sample(m, c, index, confirmed).1.wf(),
{
    let id = c.id;
    lemma_controller_index(m.previous, id);
    assert(controller_index(m.previous, id) is Some);
    lemma_clear_recovered_wf(m.warning_history, m.previous, id, c.battery);
    let history = clear_recovered_warnings_spec(m.warning_history, id, c.battery);
    let warning = settled_warning(m, history, m.previous[index], c, confirmed);
    let history2 = match warning {
        Some(w) => record_warning(history, id, w.level),
        None => history,
    };
    match warning {
        Some(w) => lemma_record_warning_wf(history, m.previous, id, w.level),
        None => {},
    }
    lemma_remove_key(m.pending_readings, id);
    lemma_remove_key(m.pending_announcements, id);
    lemma_keys_known_remove(m.pending_readings, m.previous, id);
    lemma_keys_known_remove(m.pending_announcements, m.previous, id);
    lemma_ids_unique_update(m.previous, index, c);
    lemma_keys_known_update(remove_key(m.pending_readings, id), m.previous, index, c);
    lemma_keys_known_update(remove_key(m.pending_announcements, id), m.previous, index, c);
    lemma_keys_known_update(history2, m.previous, index, c);
}

/// Samples of several controllers keep the monitor well formed.
pub proof fn lemma_observe_all_wf(m: MonitorView, current: Seq<ControllerView>, now: u64)
    requires
        m.wf(),
    ensures
        observe_all(m, current, now).1.wf(),
    decreases current.len(),
{
    if current.len() > 0 {
        lemma_observe_all_wf(m, current.drop_last(), now);
        lemma_observe_connected_wf(observe_all(m, current.drop_last(), now).1, current.last(), now);
    }
}

/// Forgetting several controllers keeps the monitor well formed.
pub proof fn lemma_disconnect_all_wf(m: MonitorView, ids: Seq<Seq<char>>)
    requires
        m.wf(),
    ensures
        disconnect_all(m, ids).1.wf(),
    decreases ids.len(),
{
    if ids.len() > 0 {
        lemma_disconnect_all_wf(m, ids.drop_last());
        lemma_observe_disconnected_wf(disconnect_all(m, ids.drop_last()).1, ids.last());
    }
}

/// A full snapshot keeps the monitor well formed.
pub proof fn lemma_observe_current_wf(m: MonitorView, current: Seq<ControllerView>, now: u64)
    requires
        m.wf(),
    ensures
        observe_current_spec(m, current, now).1.wf(),
{
    lemma_observe_all_wf(m, current, now);
    let m1 = observe_all(m, current, now).1;
    lemma_disconnect_all_wf(m1, absent_ids(m1.previous, current));
}

pub(crate) proof fn lemma_observe_pending_controllers_wf(m: MonitorView, current: Seq<ControllerView>, now: u64)
    requires
        m.wf(),
    ensures
        observe_pending_controllers(m, current, now).1.wf(),
    decreases current.len(),
{
    if current.len() > 0 {
        lemma_observe_pending_controllers_wf(m, current.drop_last(), now);
        lemma_observe_connected_wf(observe_pending_controllers(m, current.drop_last(), now).1, current.last(), now);
    }
}

/// The readings that a refresh keeps are some of the pending ones, each key once.
pub(crate) proof fn lemma_retain_present(pending: Seq<(Seq<char>, PendingReading)>, current: Seq<ControllerView>, now: u64)
    requires
        keys_unique(pending),
    ensures
        keys_unique(retain_present(pending, current, now).0),
        forall|i: int|
            0 <= i < retain_present(pending, current, now).0.len() ==> key_index(
                pending,
                #[trigger] retain_present(pending, current, now).0[i].0,
            ) is Some,
    decreases pending.len(),
{
    if pending.len() > 0 {
        let prefix = pending.drop_last();
        let last = pending.last();
        assert(keys_unique(prefix));
        lemma_retain_present(prefix, current, now);
        let kept = retain_present(prefix, current, now).0;
        assert forall|i: int| 0 <= i < kept.len() implies kept[i].0 != last.0 && key_index(pending, kept[i].0)
            is Some by {
            lemma_key_index(prefix, kept[i].0);
            let j = key_index(prefix, kept[i].0)->0;
            assert(pending[j].0 == kept[i].0);
            assert(pending.take(pending.len() - 1) =~= prefix);
            super::keyed::lemma_key_index_prefix(pending, pending.len() - 1, kept[i].0);
        }
        lemma_key_index(pending, last.0);
        assert(pending[pending.len() - 1].0 == last.0);
    }
}

/// A refresh of the pending controllers keeps the monitor well formed.
pub proof fn lemma_observe_pending_wf(m: MonitorView, current: Seq<ControllerView>, now: u64)
    requires
        m.wf(),
    ensures
        observe_pending_spec(m, current, now).1.wf(),
{
    lemma_observe_pending_controllers_wf(m, current, now);
    let m1 = observe_pending_controllers(m, current, now).1;
    lemma_retain_present(m1.pending_readings, current, now);
    let (kept, expired) = retain_present(m1.pending_readings, current, now);
    lemma_keys_known_subset(m1.pending_readings, kept, m1.previous);
    lemma_disconnect_all_wf(MonitorView { pending_readings: kept, ..m1 }, expired);
}

proof fn lemma_retain_deferrable(pending: Seq<(Seq<char>, PendingReading)>, now: u64)
    requires
        keys_unique(pending),
    ensures
        keys_unique(retain_deferrable(pending, now).0),
        forall|i: int|
            0 <= i < retain_deferrable(pending, now).0.len() ==> key_index(
                pending,
                #[trigger] retain_deferrable(pending, now).0[i].0,
            ) is Some,
    decreases pending.len(),
{
    if pending.len() > 0 {
        let prefix = pending.drop_last();
        let last = pending.last();
        assert(keys_unique(prefix));
        lemma_retain_deferrable(prefix, now);
        let kept = retain_deferrable(prefix, now).0;
        assert forall|i: int| 0 <= i < kept.len() implies kept[i].0 != last.0 && key_index(pending, kept[i].0)
            is Some by {
            lemma_key_index(prefix, kept[i].0);
            let j = key_index(prefix, kept[i].0)->0;
            assert(pending[j].0 == kept[i].0);
            assert(pending.take(pending.len() - 1) =~= prefix);
            super::keyed::lemma_key_index_prefix(pending, pending.len() - 1, kept[i].0);
        }
        lemma_key_index(pending, last.0);
        assert(pending[pending.len() - 1].0 == last.0);
    }
}

pub(crate) proof fn lemma_release_all_wf(m: MonitorView, ids: Seq<Seq<char>>)
    requires
        m.wf(),
    ensures
        release_all(m, ids).1.wf(),
    decreases ids.len(),
{
    if ids.len() > 0 {
        lemma_release_all_wf(m, ids.drop_last());
        lemma_release_pending_connected_wf(release_all(m, ids.drop_last()).1, ids.last());
    }
}

/// A failed refresh keeps the monitor well formed.
pub proof fn lemma_defer_due_refreshes_wf(m: MonitorView, now: u64)
    requires
        m.wf(),
    ensures
        defer_due_refreshes_spec(m, now).1.wf(),
{
    lemma_retain_deferrable(m.pending_readings, now);
    let (kept, abandoned) = retain_deferrable(m.pending_readings, now);
    lemma_keys_known_subset(m.pending_readings, kept, m.previous);
    lemma_release_all_wf(MonitorView { pending_readings: kept, ..m }, abandoned);
}

pub(crate) proof fn lemma_unknown_has_no_entry<V>(entries: Seq<(Seq<char>, V)>, controllers: Seq<ControllerView>, id: Seq<char>)
    requires
        keys_known(entries, controllers),
        controller_index(controllers, id) is None,
    ensures
        key_index(entries, id) is None,
{
    lemma_key_index(entries, id);
    match key_index(entries, id) {
        Some(k) => assert(controller_index(controllers, entries[k].0) is Some),
        None => {},
    }
}

/// A disconnected controller is forgotten entirely: it is no longer known, and no
/// pending reading, held-back announcement or warning history of it remains; the
/// disconnection is announced exactly when the controller was known.
pub proof fn law_disconnect_forgets_the_controller(m: MonitorView, id: Seq<char>)
    requires
        m.wf(),
    ensures
        ({
            let (event, after) = observe_disconnected_spec(m, id);
            &&& controller_index(after.previous, id) is None
            &&& lookup(after.pending_readings, id) is None
            &&& lookup(after.pending_announcements, id) is None
            &&& lookup(after.warning_history, id) is None
            &&& (event is Some) == (controller_index(m.previous, id) is Some)
        }),
{
    lemma_remove_key(m.pending_readings, id);
    lemma_remove_key(m.pending_announcements, id);
    lemma_remove_key(m.warning_history, id);
    lemma_controller_index(m.previous, id);
    let after = observe_disconnected_spec(m, id).1;
    lemma_controller_index(after.previous, id);
    match controller_index(m.previous, id) {
        Some(i) => {
            match controller_index(after.previous, id) {
                Some(j) => {
                    if j < i {
                        assert(after.previous[j] == m.previous[j]);
                    } else {
                        assert(after.previous[j] == m.previous[j + 1]);
                    }
                },
                None => {},
            }
        },
        None => {},
    }
}

/// A controller that appears with a reading that needs no confirmation and is usable
/// is announced at once, exactly as sampled, and nothing is left pending for it.
pub proof fn law_settled_new_controller_is_announced_at_once(m: MonitorView, c: ControllerView, now: u64)
    requires
        m.wf(),
        controller_index(m.previous, c.id) is None,
        confirmation_candidate_spec(c.battery) is None,
        !is_transient_unknown(c.battery),
    ensures
        ({
            let (events, after) = observe_connected_spec(m, c, now);
            &&& events == seq![EventView::Connected(c)]
            &&& after.previous == m.previous.push(c)
            &&& lookup(after.pending_readings, c.id) is None
            &&& lookup(after.pending_announcements, c.id) is None
        }),
{
    lemma_unknown_has_no_entry(m.pending_readings, m.previous, c.id);
    lemma_unknown_has_no_entry(m.pending_announcements, m.previous, c.id);
}

/// A reading that needs confirmation and has not been confirmed by a due pending
/// reading of the same kind is held back: nothing is announced, the controller's
/// stored reading stays as it was, and a confirmation of that kind is pending.
pub proof fn law_unconfirmed_reading_is_held_back(m: MonitorView, c: ControllerView, now: u64)
    requires
        m.wf(),
        controller_index(m.previous, c.id) is Some,
        !is_transient_unknown(c.battery),
        needs_confirmation_spec(m.previous[controller_index(m.previous, c.id)->0].battery, c.battery),
        !is_confirmed(m, m.previous[controller_index(m.previous, c.id)->0], c, now),
    ensures
        ({
            let (events, after) = observe_connected_spec(m, c, now);
            &&& events.len() == 0
            &&& after.previous == m.previous
            &&& lookup(after.pending_readings, c.id) matches Some(p) && p.kind == PendingReadingKind::Confirming(
                confirmation_candidate_spec(c.battery)->0,
            )
        }),
{
    let id = c.id;
    let candidate = confirmation_candidate_spec(c.battery)->0;
    match lookup(m.pending_readings, id) {
        Some(p) => {
            lemma_set_key(m.pending_readings, id, super::pending::pending_observe(p, true));
            let pending = set_key(m.pending_readings, id, super::pending::pending_observe(p, true));
            lemma_set_key(pending, id, pending_new(PendingReadingKind::Confirming(candidate), now));
        },
        None => {
            lemma_set_key(m.pending_readings, id, pending_new(PendingReadingKind::Confirming(candidate), now));
        },
    }
}

/// An unknown sample of a known controller never erases a known battery reading: when
/// the stored reading is wired or has a usable charge, it stays as it was.
pub proof fn law_unknown_sample_keeps_the_last_known_reading(m: MonitorView, c: ControllerView, now: u64)
    requires
        m.wf(),
        controller_index(m.previous, c.id) is Some,
        is_transient_unknown(c.battery),
        ({
            let stored = m.previous[controller_index(m.previous, c.id)->0].battery;
            stored.kind == crate::controller::battery::kind::BatteryKind::Wired
                || crate::controller::battery::charge::charge_percent(stored.charge) is Some
        }),
    ensures
        ({
            let i = controller_index(m.previous, c.id)->0;
            observe_connected_spec(m, c, now).1.previous[i].battery == m.previous[i].battery
        }),
{
    lemma_controller_index(m.previous, c.id);
}

/// A different warning policy forgets which levels each controller was warned about;
/// the same policy keeps that history. Nothing else changes.
pub proof fn law_policy_replacement_resets_history_only_when_it_differs(m: MonitorView, policy: Seq<LevelView>)
    ensures
        set_warning_policy_spec(m, policy).warning_policy == policy,
        set_warning_policy_spec(m, policy).previous == m.previous,
        set_warning_policy_spec(m, policy).pending_readings == m.pending_readings,
        policy != m.warning_policy ==> set_warning_policy_spec(m, policy).warning_history.len() == 0,
        policy == m.warning_policy ==> set_warning_policy_spec(m, policy).warning_history == m.warning_history,
{
}

/// The next refresh delay is absent exactly when nothing is pending; otherwise it is
/// the delay of some pending reading and no pending reading is due sooner.
pub proof fn law_next_refresh_delay_is_the_earliest(pending: Seq<(Seq<char>, PendingReading)>, now: u64)
    ensures
        (next_refresh_delay_spec(pending, now) is None) == (pending.len() == 0),
        next_refresh_delay_spec(pending, now) matches Some(d) ==> {
            &&& exists|i: int| 0 <= i < pending.len() && d == pending_delay(#[trigger] pending[i].1, now)
            &&& forall|i: int| 0 <= i < pending.len() ==> d <= pending_delay(#[trigger] pending[i].1, now)
        },
    decreases pending.len(),
{
    if pending.len() > 0 {
        let prefix = pending.drop_last();
        law_next_refresh_delay_is_the_earliest(prefix, now);
        let last = pending.len() - 1;
        let d = next_refresh_delay_spec(pending, now)->0;
        assert forall|i: int| 0 <= i < pending.len() implies d <= pending_delay(#[trigger] pending[i].1, now) by {
            if i < last {
                assert(prefix[i] == pending[i]);
            }
        }
        match next_refresh_delay_spec(prefix, now) {
            Some(best) => {
                let w = choose|i: int| 0 <= i < prefix.len() && best == pending_delay(#[trigger] prefix[i].1, now);
                assert(prefix[w] == pending[w]);
                if d == best {
                    assert(d == pending_delay(pending[w].1, now));
                } else {
                    assert(d == pending_delay(pending[last].1, now));
                }
            },
            None => {
                assert(d == pending_delay(pending[last].1, now));
            },
        }
    }
}

/// A due refresh that fails, or whose controller is missing, is postponed by the
/// kind's retry delay exactly while fewer than the allowed number of postponements in
/// a row have been made; after that it is given up.
pub proof fn law_postponements_are_bounded(p: PendingReading, now: u64)
    requires
        p.inconclusive_refreshes <= MAX_DEFERRED_REFRESHES,
        p.missing_refreshes <= MAX_DEFERRED_REFRESHES,
    ensures
        pending_defer_inconclusive(p, now).0 == (p.inconclusive_refreshes < MAX_DEFERRED_REFRESHES),
        pending_defer_missing(p, now).0 == (p.missing_refreshes < MAX_DEFERRED_REFRESHES),
        pending_defer_inconclusive(p, now).0 ==> pending_defer_inconclusive(p, now).1.next_check == saturating_add(
            now,
            retry_delay_spec(p.kind),
        ),
        pending_defer_missing(p, now).0 ==> pending_defer_missing(p, now).1.next_check == saturating_add(
            now,
            retry_delay_spec(p.kind),
        ),
{
}


/// A settled sample of a known controller whose change of reading crosses a level the
/// controller has not been warned about since recovering is announced as exactly that
/// warning, and becomes the controller's stored reading.
pub proof fn law_settled_crossing_is_announced(m: MonitorView, c: ControllerView, now: u64, warning: WarningView)
    requires
        m.wf(),
        controller_index(m.previous, c.id) is Some,
        !is_transient_unknown(c.battery),
        !needs_confirmation_spec(m.previous[controller_index(m.previous, c.id)->0].battery, c.battery),
        lookup(m.pending_announcements, c.id) is None,
        warning_between_spec(m.warning_policy, m.previous[controller_index(m.previous, c.id)->0].battery, c.battery)
            == Some(warning),
        should_emit_warning_spec(clear_recovered_warnings_spec(m.warning_history, c.id, c.battery), c.id, warning),
    ensures
        ({
            let (events, after) = observe_connected_spec(m, c, now);
            &&& events == seq![EventView::BatteryWarning { warning }]
            &&& after.previous[controller_index(m.previous, c.id)->0] == c
        }),
{
    lemma_controller_index(m.previous, c.id);
    let i = controller_index(m.previous, c.id)->0;
    let (events, after) = observe_connected_spec(m, c, now);
    let pending = match lookup(m.pending_readings, c.id) {
        Some(p) => set_key(m.pending_readings, c.id, super::pending::pending_observe(p, true)),
        None => m.pending_readings,
    };
    let m1 = MonitorView { pending_readings: pending, ..m };
    let confirmed = is_confirmed(m1, m.previous[i], c, now);
    assert((events, after) == accept_sample(m1, c, i, confirmed));
    let history = clear_recovered_warnings_spec(m1.warning_history, c.id, c.battery);
    assert(settled_warning(m1, history, m1.previous[i], c, confirmed) == Some(warning));
}

pub(crate) proof fn lemma_absent_ids(previous: Seq<ControllerView>, current: Seq<ControllerView>, k: Seq<char>)
    ensures
        absent_ids(previous, current).contains(k) == (controller_index(previous, k) is Some && controller_index(
            current,
            k,
        ) is None),
    decreases previous.len(),
{
    if previous.len() > 0 {
        let prefix = previous.drop_last();
        lemma_absent_ids(prefix, current, k);
        lemma_controller_index(previous, k);
        lemma_controller_index(prefix, k);
        match controller_index(prefix, k) {
            Some(j) => assert(previous[j] == prefix[j]),
            None => {},
        }
        match controller_index(previous, k) {
            Some(j) => if j < prefix.len() {
                assert(previous[j] == prefix[j]);
            },
            None => {},
        }
        let ids = absent_ids(prefix, current);
        if controller_index(current, previous.last().id) is None {
            assert(ids.push(previous.last().id).contains(k) == (ids.contains(k) || k == previous.last().id)) by {
                if k == previous.last().id {
                    assert(ids.push(previous.last().id)[ids.len() as int] == k);
                }
                if ids.push(previous.last().id).contains(k) && k != previous.last().id {
                    let w = choose|w: int| 0 <= w < ids.len() + 1 && ids.push(previous.last().id)[w] == k;
                    assert(ids[w] == k);
                }
                if ids.contains(k) {
                    let w = choose|w: int| 0 <= w < ids.len() && ids[w] == k;
                    assert(ids.push(previous.last().id)[w] == k);
                }
            }
        }
    }
}

proof fn lemma_observe_connected_knows(m: MonitorView, c: ControllerView, now: u64)
    requires
        m.wf(),
    ensures
        controller_index(observe_connected_spec(m, c, now).1.previous, c.id) is Some,
        forall|k: Seq<char>|
            controller_index(m.previous, k) is Some ==> #[trigger] controller_index(
                observe_connected_spec(m, c, now).1.previous,
                k,
            ) is Some,
{
    let after = observe_connected_spec(m, c, now).1;
    lemma_controller_index(m.previous, c.id);
    match controller_index(m.previous, c.id) {
        None => {
            let stored = after.previous.last();
            assert(after.previous == m.previous.push(stored));
            lemma_known_push(m.previous, stored, c.id);
            assert forall|k: Seq<char>| controller_index(m.previous, k) is Some implies #[trigger] controller_index(
                after.previous,
                k,
            ) is Some by {
                lemma_known_push(m.previous, stored, k);
            }
        },
        Some(index) => {
            let stored = after.previous[index];
            assert(after.previous == m.previous.update(index, stored));
            assert(stored.id == c.id);
            lemma_known_update(m.previous, index, stored, c.id);
            assert forall|k: Seq<char>| controller_index(m.previous, k) is Some implies #[trigger] controller_index(
                after.previous,
                k,
            ) is Some by {
                lemma_known_update(m.previous, index, stored, k);
            }
        },
    }
}


proof fn lemma_observe_disconnected_knows(m: MonitorView, id: Seq<char>, k: Seq<char>)
    requires
        m.wf(),
    ensures
        (controller_index(observe_disconnected_spec(m, id).1.previous, k) is Some) == (controller_index(
            m.previous,
            k,
        ) is Some && k != id),
{
    law_disconnect_forgets_the_controller(m, id);
    let after = observe_disconnected_spec(m, id).1;
    lemma_controller_index(m.previous, id);
    lemma_controller_index(m.previous, k);
    lemma_controller_index(after.previous, k);
    match controller_index(m.previous, id) {
        Some(i) => {
            if k != id && controller_index(m.previous, k) is Some {
                lemma_known_remove(m.previous, i, k);
            }
            match controller_index(after.previous, k) {
                Some(j) => if j < i {
                    assert(after.previous[j] == m.previous[j]);
                } else {
                    assert(after.previous[j] == m.previous[j + 1]);
                },
                None => {},
            }
        },
        None => {},
    }
}

pub(crate) proof fn lemma_disconnect_all_knows(m: MonitorView, ids: Seq<Seq<char>>, k: Seq<char>)
    requires
        m.wf(),
    ensures
        (controller_index(disconnect_all(m, ids).1.previous, k) is Some) == (controller_index(m.previous, k) is Some
            && !ids.contains(k)),
    decreases ids.len(),
{
    if ids.len() > 0 {
        let prefix = ids.drop_last();
        lemma_disconnect_all_knows(m, prefix, k);
        lemma_disconnect_all_wf(m, prefix);
        lemma_observe_disconnected_knows(disconnect_all(m, prefix).1, ids.last(), k);
        assert(ids == prefix.push(ids.last()));
        if ids.contains(k) && k != ids.last() {
            let w = choose|w: int| 0 <= w < ids.len() && ids[w] == k;
            assert(prefix[w] == k);
        }
        if prefix.contains(k) {
            let w = choose|w: int| 0 <= w < prefix.len() && prefix[w] == k;
            assert(ids[w] == k);
        }
        if k == ids.last() {
            assert(ids[ids.len() - 1] == k);
        }
    }
}

proof fn lemma_observe_all_knows(m: MonitorView, current: Seq<ControllerView>, now: u64)
    requires
        m.wf(),
    ensures
        forall|i: int|
            0 <= i < current.len() ==> controller_index(observe_all(m, current, now).1.previous, #[trigger] current[i].id)
                is Some,
        forall|k: Seq<char>|
            controller_index(m.previous, k) is Some ==> #[trigger] controller_index(
                observe_all(m, current, now).1.previous,
                k,
            ) is Some,
    decreases current.len(),
{
    if current.len() > 0 {
        let prefix = current.drop_last();
        lemma_observe_all_knows(m, prefix, now);
        lemma_observe_all_wf(m, prefix, now);
        let m1 = observe_all(m, prefix, now).1;
        lemma_observe_connected_knows(m1, current.last(), now);
        assert forall|i: int| 0 <= i < current.len() implies controller_index(
            observe_all(m, current, now).1.previous,
            #[trigger] current[i].id,
        ) is Some by {
            if i < prefix.len() {
                assert(prefix[i] == current[i]);
                assert(controller_index(m1.previous, prefix[i].id) is Some);
            }
        }
    }
}

/// After a full snapshot the monitor knows exactly the listed controllers: each one
/// listed is known, and every known controller is listed.
pub proof fn law_snapshot_decides_which_controllers_are_known(m: MonitorView, current: Seq<ControllerView>, now: u64)
    requires
        m.wf(),
    ensures
        forall|i: int|
            0 <= i < current.len() ==> controller_index(
                observe_current_spec(m, current, now).1.previous,
                #[trigger] current[i].id,
            ) is Some,
        forall|j: int|
            0 <= j < observe_current_spec(m, current, now).1.previous.len() ==> controller_index(
                current,
                #[trigger] observe_current_spec(m, current, now).1.previous[j].id,
            ) is Some,
{
    lemma_observe_all_knows(m, current, now);
    lemma_observe_all_wf(m, current, now);
    let m1 = observe_all(m, current, now).1;
    let gone = absent_ids(m1.previous, current);
    let after = observe_current_spec(m, current, now).1;
    assert(after == disconnect_all(m1, gone).1);
    assert forall|i: int| 0 <= i < current.len() implies controller_index(after.previous, #[trigger] current[i].id)
        is Some by {
        lemma_disconnect_all_knows(m1, gone, current[i].id);
        lemma_absent_ids(m1.previous, current, current[i].id);
        lemma_controller_index(current, current[i].id);
    }
    assert forall|j: int| 0 <= j < after.previous.len() implies controller_index(
        current,
        #[trigger] after.previous[j].id,
    ) is Some by {
        let k = after.previous[j].id;
        lemma_controller_index(after.previous, k);
        lemma_disconnect_all_knows(m1, gone, k);
        lemma_absent_ids(m1.previous, current, k);
    }
}


/// A warning is only announced for a level that the controller has not been warned
/// about since it last recovered from it, and once announced that level is remembered.
pub proof fn law_each_level_warns_once_until_recovery(m: MonitorView, c: ControllerView, index: int, confirmed: bool)
    requires
        m.wf(),
        0 <= index < m.previous.len(),
        m.previous[index].id == c.id,
    ensures
        ({
            let history = clear_recovered_warnings_spec(m.warning_history, c.id, c.battery);
            let after = accept_sample(m, c, index, confirmed).1;
            settled_warning(m, history, m.previous[index], c, confirmed) matches Some(w) ==> {
                &&& (lookup(history, c.id) matches Some(levels) ==> key_index(levels, w.level.name) is None)
                &&& lookup(after.warning_history, c.id) matches Some(remembered) && key_index(
                    remembered,
                    w.level.name,
                ) is Some
            }
        }),
{
    let history = clear_recovered_warnings_spec(m.warning_history, c.id, c.battery);
    lemma_controller_index(m.previous, c.id);
    lemma_clear_recovered_wf(m.warning_history, m.previous, c.id, c.battery);
    match settled_warning(m, history, m.previous[index], c, confirmed) {
        Some(w) => {
            let levels = match lookup(history, c.id) {
                Some(levels) => levels,
                None => Seq::empty(),
            };
            lemma_key_index(history, c.id);
            match key_index(history, c.id) {
                Some(k) => assert(keys_unique(history[k].1)),
                None => {},
            }
            lemma_set_key(levels, w.level.name, w.level);
            lemma_set_key(history, c.id, set_key(levels, w.level.name, w.level));
            lemma_key_index(set_key(levels, w.level.name, w.level), w.level.name);
        },
        None => {},
    }
}

} // verus!
