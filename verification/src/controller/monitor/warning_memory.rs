//! How long the monitor remembers a warning: a level a controller was warned about is
//! not announced again until the controller recovers from it.
use vstd::prelude::*;

use super::keyed::{key_index, keys_unique, lemma_key_index, lemma_remove_key, lemma_set_key, lookup, set_key};
use super::laws::{
    lemma_clear_recovered_wf, lemma_disconnect_all_knows, lemma_defer_due_refreshes_wf, lemma_disconnect_all_wf,
    lemma_keys_known_subset, lemma_observe_all_wf, lemma_observe_connected_wf, lemma_observe_current_wf,
    lemma_observe_disconnected_wf, lemma_observe_pending_controllers_wf, lemma_observe_pending_wf,
    lemma_retain_present, lemma_retain_unrecovered,
};
use super::model::{
    LevelHistoryView, MonitorView, absent_ids, accept_sample, clear_recovered_warnings_spec, controller_index,
    defer_due_refreshes_spec, disconnect_all, is_confirmed, is_transient_unknown, keys_known, lemma_controller_index,
    needs_confirmation_spec, observe_all, observe_connected_spec, observe_current_spec, observe_disconnected_spec,
    observe_pending_controllers, observe_pending_spec, option_events, recovery_threshold, release_all,
    retain_deferrable, retain_present, retain_unrecovered, set_warning_policy_spec, settled_warning, warning_events,
};
use crate::controller::battery::battery_warning::WarningView;
use crate::controller::battery::battery_warning_level::LevelView;
use crate::controller::battery::charge::{BatteryCharge, charge_percent};
use crate::controller::battery::kind::BatteryKind;
use crate::controller::battery::reading::BatteryReading;
use crate::controller::controller::ControllerView;
use crate::controller::event::controller_event::EventView;

verus! {

/// The level named `name` that the monitor remembers having warned controller `id` about.
pub open spec fn remembered_level(m: MonitorView, id: Seq<char>, name: Seq<char>) -> Option<LevelView> {
    match lookup(m.warning_history, id) {
        Some(levels) => lookup(levels, name),
        None => None,
    }
}

/// Whether a reading is a recovery from `level`: the controller is wired, or its charge is
/// above the level's threshold on the reading's own scale (the precise threshold for a
/// precise charge and the coarse level's estimate for a coarse one, each falling back on
/// the other).
pub open spec fn recovers_from(level: LevelView, reading: BatteryReading) -> bool {
    ||| reading.kind == BatteryKind::Wired
    ||| (charge_percent(reading.charge) matches Some(p) && recovery_threshold(level, reading.charge) matches Some(t)
        && p > t)
}

/// The warning an event carries, if any.
pub open spec fn event_warning(event: EventView) -> Option<WarningView> {
    match event {
        EventView::BatteryWarning { warning } => Some(warning),
        EventView::BatteryStatus { warning, .. } => warning,
        _ => None,
    }
}

proof fn lemma_key_index_push<V>(entries: Seq<(Seq<char>, V)>, entry: (Seq<char>, V), key: Seq<char>)
    ensures
        key_index(entries.push(entry), key) == (if key_index(entries, key) is Some {
            key_index(entries, key)
        } else if entry.0 == key {
            Some(entries.len() as int)
        } else {
            None
        }),
{
    assert(entries.push(entry).drop_last() =~= entries);
}

/// A level survives the forgetting of recovered levels when the charge is not above its
/// threshold.
proof fn lemma_retain_keeps_level(levels: LevelHistoryView, percent: u8, charge: BatteryCharge, level: LevelView)
    requires
        keys_unique(levels),
        lookup(levels, level.name) == Some(level),
        !(recovery_threshold(level, charge) matches Some(t) && percent > t),
    ensures
        lookup(retain_unrecovered(levels, percent, charge), level.name) == Some(level),
    decreases levels.len(),
{
    let prefix = levels.drop_last();
    let entry = levels.last();
    let kept = retain_unrecovered(prefix, percent, charge);
    lemma_key_index(levels, level.name);
    assert(levels == prefix.push(entry));
    lemma_key_index_push(prefix, entry, level.name);
    assert(keys_unique(prefix));
    lemma_retain_unrecovered(prefix, percent, charge);
    if key_index(prefix, level.name) is Some {
        lemma_key_index(prefix, level.name);
        lemma_retain_keeps_level(prefix, percent, charge, level);
        lemma_key_index_push(kept, entry, level.name);
        lemma_key_index(kept, level.name);
        let i = key_index(kept, level.name)->0;
        assert(kept.push(entry)[i] == kept[i]);
    } else {
        assert(entry.0 == level.name && entry.1 == level);
        lemma_key_index(kept, level.name);
        if key_index(kept, level.name) is Some {
            let i = key_index(kept, level.name)->0;
            lemma_key_index(prefix, kept[i].0);
        }
        lemma_key_index_push(kept, entry, level.name);
        assert(kept.push(entry)[kept.len() as int] == entry);
    }
}

/// The identity of a controller the monitor remembers warnings of is known.
proof fn lemma_remembered_is_known(m: MonitorView, id: Seq<char>)
    requires
        m.wf(),
        lookup(m.warning_history, id) is Some,
    ensures
        controller_index(m.previous, id) is Some,
{
    lemma_key_index(m.warning_history, id);
    let k = key_index(m.warning_history, id)->0;
    assert(keys_known(m.warning_history, m.previous));
    assert(controller_index(m.previous, m.warning_history[k].0) is Some);
}

/// Every warning an accepted sample announces is the settled warning.
proof fn lemma_accept_events(m: MonitorView, c: ControllerView, index: int, confirmed: bool)
    ensures
        ({
            let history = clear_recovered_warnings_spec(m.warning_history, c.id, c.battery);
            let events = accept_sample(m, c, index, confirmed).0;
            forall|j: int|
                0 <= j < events.len() ==> (event_warning(#[trigger] events[j]) matches Some(v) ==> settled_warning(
                    m,
                    history,
                    m.previous[index],
                    c,
                    confirmed,
                ) == Some(v))
        }),
{
    let history = clear_recovered_warnings_spec(m.warning_history, c.id, c.battery);
    let warning = settled_warning(m, history, m.previous[index], c, confirmed);
    let events = accept_sample(m, c, index, confirmed).0;
    assert forall|j: int| 0 <= j < events.len() implies (event_warning(#[trigger] events[j]) matches Some(v)
        ==> warning == Some(v)) by {
        let we = warning_events(warning);
        if events == seq![EventView::Connected(c)] + we {
            if j > 0 {
                assert(events[j] == we[j - 1]);
            }
        }
    }
}

/// An accepted sample keeps a remembered level of any controller, unless it is a sample
/// of that controller recovering from the level; and a sample of that controller does
/// not announce a warning of the level's name.
proof fn lemma_accept_keeps_level(
    m: MonitorView,
    c: ControllerView,
    index: int,
    confirmed: bool,
    id: Seq<char>,
    level: LevelView,
)
    requires
        m.wf(),
        0 <= index < m.previous.len(),
        m.previous[index].id == c.id,
        remembered_level(m, id, level.name) == Some(level),
        c.id == id ==> !recovers_from(level, c.battery),
    ensures
        remembered_level(accept_sample(m, c, index, confirmed).1, id, level.name) == Some(level),
        c.id == id ==> (settled_warning(
            m,
            clear_recovered_warnings_spec(m.warning_history, c.id, c.battery),
            m.previous[index],
            c,
            confirmed,
        ) matches Some(w) ==> w.level.name != level.name),
{
    let history = m.warning_history;
    lemma_controller_index(m.previous, c.id);
    lemma_clear_recovered_wf(history, m.previous, c.id, c.battery);
    let cleared = clear_recovered_warnings_spec(history, c.id, c.battery);
    let warning = settled_warning(m, cleared, m.previous[index], c, confirmed);
    let levels = lookup(history, id)->0;
    lemma_remove_key(history, c.id);
    if c.id != id {
        match charge_percent(c.battery.charge) {
            Some(percent) => match lookup(history, c.id) {
                Some(own) => lemma_set_key(history, c.id, retain_unrecovered(own, percent, c.battery.charge)),
                None => {},
            },
            None => {},
        }
        assert(lookup(cleared, id) == Some(levels));
    } else {
        let percent = charge_percent(c.battery.charge);
        if percent is Some {
            lemma_key_index(history, id);
            let k = key_index(history, id)->0;
            assert(keys_unique(history[k].1));
            lemma_retain_keeps_level(levels, percent->0, c.battery.charge, level);
            let kept = retain_unrecovered(levels, percent->0, c.battery.charge);
            lemma_key_index(kept, level.name);
            lemma_set_key(history, id, kept);
        }
        assert(lookup(cleared, id) matches Some(now_levels) && lookup(now_levels, level.name) == Some(level));
    }
    let now_levels = lookup(cleared, id)->0;
    lemma_key_index(cleared, id);
    assert(keys_unique(cleared[key_index(cleared, id)->0].1));
    lemma_key_index(now_levels, level.name);
    match warning {
        Some(w) => {
            let own = match lookup(cleared, c.id) {
                Some(own) => own,
                None => Seq::empty(),
            };
            lemma_key_index(cleared, c.id);
            match key_index(cleared, c.id) {
                Some(k) => assert(keys_unique(cleared[k].1)),
                None => {},
            }
            lemma_set_key(own, w.level.name, w.level);
            lemma_set_key(cleared, c.id, set_key(own, w.level.name, w.level));
        },
        None => {},
    }
}

/// A sample keeps every remembered level, except a level of the sampled controller that
/// the sample recovers from; a sample of a controller that does not recover from a
/// remembered level announces no warning of that level's name.
proof fn lemma_sample_keeps_level(m: MonitorView, c: ControllerView, now: u64, id: Seq<char>, level: LevelView)
    requires
        m.wf(),
        remembered_level(m, id, level.name) == Some(level),
        c.id == id ==> !recovers_from(level, c.battery),
    ensures
        remembered_level(observe_connected_spec(m, c, now).1, id, level.name) == Some(level),
        c.id == id ==> ({
            let events = observe_connected_spec(m, c, now).0;
            forall|j: int|
                0 <= j < events.len() ==> !(event_warning(#[trigger] events[j]) matches Some(v) && v.level.name
                    == level.name)
        }),
{
    lemma_remembered_is_known(m, id);
    lemma_controller_index(m.previous, c.id);
    match controller_index(m.previous, c.id) {
        None => {
            lemma_remove_key(m.warning_history, c.id);
        },
        Some(index) => {
            let is_unknown = is_transient_unknown(c.battery);
            let pending = match lookup(m.pending_readings, c.id) {
                Some(p) => set_key(m.pending_readings, c.id, super::pending::pending_observe(p, !is_unknown)),
                None => m.pending_readings,
            };
            let m1 = MonitorView { pending_readings: pending, ..m };
            match lookup(m.pending_readings, c.id) {
                Some(p) => {
                    lemma_set_key(m.pending_readings, c.id, super::pending::pending_observe(p, !is_unknown));
                    super::laws::lemma_keys_known_set(
                        m.pending_readings,
                        m.previous,
                        c.id,
                        super::pending::pending_observe(p, !is_unknown),
                    );
                },
                None => {},
            }
            assert(m1.wf());
            let previous = m.previous[index];
            if !is_unknown && !(needs_confirmation_spec(previous.battery, c.battery) && !is_confirmed(
                m1,
                previous,
                c,
                now,
            )) {
                let confirmed = is_confirmed(m1, previous, c, now);
                lemma_accept_keeps_level(m1, c, index, confirmed, id, level);
                lemma_accept_events(m1, c, index, confirmed);
            }
        },
    }
}

/// A warning announced by a sample is remembered at its level.
proof fn lemma_announced_is_remembered(m: MonitorView, c: ControllerView, now: u64, k: int, warning: WarningView)
    requires
        m.wf(),
        0 <= k < observe_connected_spec(m, c, now).0.len(),
        event_warning(observe_connected_spec(m, c, now).0[k]) == Some(warning),
    ensures
        remembered_level(observe_connected_spec(m, c, now).1, c.id, warning.level.name) == Some(warning.level),
{
    lemma_controller_index(m.previous, c.id);
    match controller_index(m.previous, c.id) {
        None => {},
        Some(index) => {
            let is_unknown = is_transient_unknown(c.battery);
            let pending = match lookup(m.pending_readings, c.id) {
                Some(p) => set_key(m.pending_readings, c.id, super::pending::pending_observe(p, !is_unknown)),
                None => m.pending_readings,
            };
            let m1 = MonitorView { pending_readings: pending, ..m };
            match lookup(m.pending_readings, c.id) {
                Some(p) => {
                    lemma_set_key(m.pending_readings, c.id, super::pending::pending_observe(p, !is_unknown));
                    super::laws::lemma_keys_known_set(
                        m.pending_readings,
                        m.previous,
                        c.id,
                        super::pending::pending_observe(p, !is_unknown),
                    );
                },
                None => {},
            }
            assert(m1.wf());
            let previous = m.previous[index];
            if !is_unknown && !(needs_confirmation_spec(previous.battery, c.battery) && !is_confirmed(
                m1,
                previous,
                c,
                now,
            )) {
                let confirmed = is_confirmed(m1, previous, c, now);
                lemma_accept_events(m1, c, index, confirmed);
                let cleared = clear_recovered_warnings_spec(m1.warning_history, c.id, c.battery);
                lemma_clear_recovered_wf(m1.warning_history, m1.previous, c.id, c.battery);
                let own = match lookup(cleared, c.id) {
                    Some(own) => own,
                    None => Seq::empty(),
                };
                lemma_key_index(cleared, c.id);
                match key_index(cleared, c.id) {
                    Some(i) => assert(keys_unique(cleared[i].1)),
                    None => {},
                }
                lemma_set_key(own, warning.level.name, warning.level);
                lemma_set_key(cleared, c.id, set_key(own, warning.level.name, warning.level));
            }
        },
    }
}

/// One operation on a monitor.
pub enum MonitorStep {
    /// A sample of one connected controller at a time.
    Sample(ControllerView, u64),
    /// A controller reported disconnected.
    Disconnect(Seq<char>),
    /// A warning policy put in place.
    ReplacePolicy(Seq<LevelView>),
    /// A refresh that failed at a time.
    FailedRefresh(u64),
    /// A full snapshot at a time.
    Snapshot(Seq<ControllerView>, u64),
    /// A refresh of the controllers with pending readings at a time.
    Refresh(Seq<ControllerView>, u64),
}

/// What one operation announces, and the monitor after it.
pub open spec fn apply_step(m: MonitorView, step: MonitorStep) -> (Seq<EventView>, MonitorView) {
    match step {
        MonitorStep::Sample(c, now) => observe_connected_spec(m, c, now),
        MonitorStep::Disconnect(id) => {
            let (event, after) = observe_disconnected_spec(m, id);
            (option_events(event), after)
        },
        MonitorStep::ReplacePolicy(policy) => (Seq::empty(), set_warning_policy_spec(m, policy)),
        MonitorStep::FailedRefresh(now) => defer_due_refreshes_spec(m, now),
        MonitorStep::Snapshot(current, now) => observe_current_spec(m, current, now),
        MonitorStep::Refresh(current, now) => observe_pending_spec(m, current, now),
    }
}

/// What a run of operations announces, and the monitor after it.
pub open spec fn run(m: MonitorView, steps: Seq<MonitorStep>) -> (Seq<EventView>, MonitorView)
    decreases steps.len(),
{
    if steps.len() == 0 {
        (Seq::empty(), m)
    } else {
        let (events, m1) = run(m, steps.drop_last());
        let (more, m2) = apply_step(m1, steps.last());
        (events + more, m2)
    }
}

/// Whether every sample of controller `id` among `current`, from position `from` on,
/// reads no recovery from `level`.
pub open spec fn samples_keep_level(current: Seq<ControllerView>, from: int, id: Seq<char>, level: LevelView) -> bool {
    forall|j: int| from <= j < current.len() && #[trigger] current[j].id == id ==> !recovers_from(level, current[j].battery)
}

/// Whether an operation gives controller `id` no cause to forget `level`: it does not
/// disconnect the controller (a snapshot or refresh still knows it afterwards), does not
/// put a different policy in place, and samples it recovering from the level nowhere.
pub open spec fn step_keeps_level(m: MonitorView, step: MonitorStep, id: Seq<char>, level: LevelView) -> bool {
    match step {
        MonitorStep::Sample(c, _) => c.id == id ==> !recovers_from(level, c.battery),
        MonitorStep::Disconnect(other) => other != id,
        MonitorStep::ReplacePolicy(policy) => policy == m.warning_policy,
        MonitorStep::FailedRefresh(_) => true,
        MonitorStep::Snapshot(current, _) => samples_keep_level(current, 0, id, level) && controller_index(
            apply_step(m, step).1.previous,
            id,
        ) is Some,
        MonitorStep::Refresh(current, _) => samples_keep_level(current, 0, id, level) && controller_index(
            apply_step(m, step).1.previous,
            id,
        ) is Some,
    }
}

/// Whether no operation of a run gives controller `id` cause to forget `level`.
pub open spec fn run_keeps_level(m: MonitorView, steps: Seq<MonitorStep>, id: Seq<char>, level: LevelView) -> bool
    decreases steps.len(),
{
    steps.len() == 0 || (run_keeps_level(m, steps.drop_last(), id, level) && step_keeps_level(
        run(m, steps.drop_last()).1,
        steps.last(),
        id,
        level,
    ))
}

/// Whether the sample `c` of the monitor `m` announces `warning` as its `k`-th event.
pub open spec fn sample_warns(m: MonitorView, c: ControllerView, now: u64, k: int, warning: WarningView) -> bool {
    let events = observe_connected_spec(m, c, now).0;
    0 <= k < events.len() && event_warning(events[k]) == Some(warning)
}

/// Whether an operation's `i`-th sample, which is a sample of controller `id`, announces
/// `warning` as its `k`-th event: the operation's only sample, or a sample of a snapshot,
/// or a sample of a refresh that observes it (the controller has a pending reading).
pub open spec fn warned_in_step(
    m: MonitorView,
    step: MonitorStep,
    i: int,
    k: int,
    id: Seq<char>,
    warning: WarningView,
) -> bool {
    match step {
        MonitorStep::Sample(c, now) => i == 0 && c.id == id && sample_warns(m, c, now, k, warning),
        MonitorStep::Snapshot(current, now) => 0 <= i < current.len() && current[i].id == id && sample_warns(
            observe_all(m, current.take(i), now).1,
            current[i],
            now,
            k,
            warning,
        ),
        MonitorStep::Refresh(current, now) => {
            let before = observe_pending_controllers(m, current.take(i), now).1;
            &&& 0 <= i < current.len()
            &&& current[i].id == id
            &&& key_index(before.pending_readings, id) is Some
            &&& sample_warns(before, current[i], now, k, warning)
        },
        _ => false,
    }
}

/// Whether the rest of the operation that warned, after its `i`-th sample, gives
/// controller `id` no cause to forget `level`.
pub open spec fn rest_of_step_keeps_level(
    m: MonitorView,
    step: MonitorStep,
    i: int,
    id: Seq<char>,
    level: LevelView,
) -> bool {
    match step {
        MonitorStep::Snapshot(current, _) => samples_keep_level(current, i + 1, id, level) && controller_index(
            apply_step(m, step).1.previous,
            id,
        ) is Some,
        MonitorStep::Refresh(current, _) => samples_keep_level(current, i + 1, id, level) && controller_index(
            apply_step(m, step).1.previous,
            id,
        ) is Some,
        _ => true,
    }
}

proof fn lemma_observe_all_tail(
    m: MonitorView,
    current: Seq<ControllerView>,
    now: u64,
    from: int,
    id: Seq<char>,
    level: LevelView,
)
    requires
        m.wf(),
        0 <= from <= current.len(),
        remembered_level(observe_all(m, current.take(from), now).1, id, level.name) == Some(level),
        samples_keep_level(current, from, id, level),
    ensures
        remembered_level(observe_all(m, current, now).1, id, level.name) == Some(level),
    decreases current.len() - from,
{
    if from == current.len() {
        assert(current.take(from) =~= current);
    } else {
        let before = observe_all(m, current.take(from), now).1;
        lemma_observe_all_wf(m, current.take(from), now);
        assert(current.take(from + 1).drop_last() =~= current.take(from));
        assert(current.take(from + 1).last() == current[from]);
        lemma_sample_keeps_level(before, current[from], now, id, level);
        lemma_observe_all_tail(m, current, now, from + 1, id, level);
    }
}

proof fn lemma_observe_pending_controllers_tail(
    m: MonitorView,
    current: Seq<ControllerView>,
    now: u64,
    from: int,
    id: Seq<char>,
    level: LevelView,
)
    requires
        m.wf(),
        0 <= from <= current.len(),
        remembered_level(observe_pending_controllers(m, current.take(from), now).1, id, level.name) == Some(level),
        samples_keep_level(current, from, id, level),
    ensures
        remembered_level(observe_pending_controllers(m, current, now).1, id, level.name) == Some(level),
    decreases current.len() - from,
{
    if from == current.len() {
        assert(current.take(from) =~= current);
    } else {
        let before = observe_pending_controllers(m, current.take(from), now).1;
        lemma_observe_pending_controllers_wf(m, current.take(from), now);
        assert(current.take(from + 1).drop_last() =~= current.take(from));
        assert(current.take(from + 1).last() == current[from]);
        lemma_sample_keeps_level(before, current[from], now, id, level);
        lemma_observe_pending_controllers_tail(m, current, now, from + 1, id, level);
    }
}

proof fn lemma_disconnect_all_keeps_level(m: MonitorView, ids: Seq<Seq<char>>, id: Seq<char>, level: LevelView)
    requires
        m.wf(),
        remembered_level(m, id, level.name) == Some(level),
        !ids.contains(id),
    ensures
        remembered_level(disconnect_all(m, ids).1, id, level.name) == Some(level),
    decreases ids.len(),
{
    if ids.len() > 0 {
        let prefix = ids.drop_last();
        if prefix.contains(id) {
            let w = choose|w: int| 0 <= w < prefix.len() && prefix[w] == id;
            assert(ids[w] == id);
        }
        assert(ids[ids.len() - 1] == ids.last());
        lemma_disconnect_all_keeps_level(m, prefix, id, level);
        lemma_disconnect_all_wf(m, prefix);
        lemma_remove_key(disconnect_all(m, prefix).1.warning_history, ids.last());
    }
}

proof fn lemma_release_all_history(m: MonitorView, ids: Seq<Seq<char>>)
    ensures
        release_all(m, ids).1.warning_history == m.warning_history,
    decreases ids.len(),
{
    if ids.len() > 0 {
        lemma_release_all_history(m, ids.drop_last());
    }
}

/// The disconnections that end a snapshot keep a remembered level of a controller that
/// stays known.
proof fn lemma_snapshot_end_keeps_level(
    m: MonitorView,
    current: Seq<ControllerView>,
    now: u64,
    id: Seq<char>,
    level: LevelView,
)
    requires
        m.wf(),
        remembered_level(observe_all(m, current, now).1, id, level.name) == Some(level),
        controller_index(observe_current_spec(m, current, now).1.previous, id) is Some,
    ensures
        remembered_level(observe_current_spec(m, current, now).1, id, level.name) == Some(level),
{
    lemma_observe_all_wf(m, current, now);
    let m1 = observe_all(m, current, now).1;
    let gone = absent_ids(m1.previous, current);
    lemma_disconnect_all_knows(m1, gone, id);
    lemma_disconnect_all_keeps_level(m1, gone, id, level);
}

/// The postponements and disconnections that end a refresh keep a remembered level of
/// a controller that stays known.
proof fn lemma_refresh_end_keeps_level(
    m: MonitorView,
    current: Seq<ControllerView>,
    now: u64,
    id: Seq<char>,
    level: LevelView,
)
    requires
        m.wf(),
        remembered_level(observe_pending_controllers(m, current, now).1, id, level.name) == Some(level),
        controller_index(observe_pending_spec(m, current, now).1.previous, id) is Some,
    ensures
        remembered_level(observe_pending_spec(m, current, now).1, id, level.name) == Some(level),
{
    lemma_observe_pending_controllers_wf(m, current, now);
    let m1 = observe_pending_controllers(m, current, now).1;
    lemma_retain_present(m1.pending_readings, current, now);
    let (kept, expired) = retain_present(m1.pending_readings, current, now);
    lemma_keys_known_subset(m1.pending_readings, kept, m1.previous);
    let m2 = MonitorView { pending_readings: kept, ..m1 };
    assert(m2.wf());
    lemma_disconnect_all_knows(m2, expired, id);
    lemma_disconnect_all_keeps_level(m2, expired, id, level);
}

/// An operation that gives a controller no cause to forget a level keeps it remembered,
/// and keeps the monitor well formed.
proof fn lemma_step_keeps_level(m: MonitorView, step: MonitorStep, id: Seq<char>, level: LevelView)
    requires
        m.wf(),
        remembered_level(m, id, level.name) == Some(level),
        step_keeps_level(m, step, id, level),
    ensures
        apply_step(m, step).1.wf(),
        remembered_level(apply_step(m, step).1, id, level.name) == Some(level),
{
    match step {
        MonitorStep::Sample(c, now) => {
            lemma_observe_connected_wf(m, c, now);
            lemma_sample_keeps_level(m, c, now, id, level);
        },
        MonitorStep::Disconnect(other) => {
            lemma_observe_disconnected_wf(m, other);
            lemma_remove_key(m.warning_history, other);
        },
        MonitorStep::ReplacePolicy(policy) => {},
        MonitorStep::FailedRefresh(now) => {
            lemma_defer_due_refreshes_wf(m, now);
            let (kept, abandoned) = retain_deferrable(m.pending_readings, now);
            lemma_release_all_history(MonitorView { pending_readings: kept, ..m }, abandoned);
        },
        MonitorStep::Snapshot(current, now) => {
            lemma_observe_current_wf(m, current, now);
            assert(current.take(0) =~= Seq::<ControllerView>::empty());
            lemma_observe_all_tail(m, current, now, 0, id, level);
            lemma_snapshot_end_keeps_level(m, current, now, id, level);
        },
        MonitorStep::Refresh(current, now) => {
            lemma_observe_pending_wf(m, current, now);
            assert(current.take(0) =~= Seq::<ControllerView>::empty());
            lemma_observe_pending_controllers_tail(m, current, now, 0, id, level);
            lemma_refresh_end_keeps_level(m, current, now, id, level);
        },
    }
}

/// The operation that announces a warning remembers its level, if the rest of the
/// operation gives no cause to forget it.
proof fn lemma_warning_step_remembers(
    m: MonitorView,
    step: MonitorStep,
    i: int,
    k: int,
    id: Seq<char>,
    warning: WarningView,
)
    requires
        m.wf(),
        warned_in_step(m, step, i, k, id, warning),
        rest_of_step_keeps_level(m, step, i, id, warning.level),
    ensures
        apply_step(m, step).1.wf(),
        remembered_level(apply_step(m, step).1, id, warning.level.name) == Some(warning.level),
{
    match step {
        MonitorStep::Sample(c, now) => {
            lemma_observe_connected_wf(m, c, now);
            lemma_announced_is_remembered(m, c, now, k, warning);
        },
        MonitorStep::Snapshot(current, now) => {
            lemma_observe_current_wf(m, current, now);
            let before = observe_all(m, current.take(i), now).1;
            lemma_observe_all_wf(m, current.take(i), now);
            lemma_announced_is_remembered(before, current[i], now, k, warning);
            assert(current.take(i + 1).drop_last() =~= current.take(i));
            assert(current.take(i + 1).last() == current[i]);
            lemma_observe_all_tail(m, current, now, i + 1, id, warning.level);
            lemma_snapshot_end_keeps_level(m, current, now, id, warning.level);
        },
        MonitorStep::Refresh(current, now) => {
            lemma_observe_pending_wf(m, current, now);
            let before = observe_pending_controllers(m, current.take(i), now).1;
            lemma_observe_pending_controllers_wf(m, current.take(i), now);
            lemma_announced_is_remembered(before, current[i], now, k, warning);
            assert(current.take(i + 1).drop_last() =~= current.take(i));
            assert(current.take(i + 1).last() == current[i]);
            lemma_observe_pending_controllers_tail(m, current, now, i + 1, id, warning.level);
            lemma_refresh_end_keeps_level(m, current, now, id, warning.level);
        },
        _ => {},
    }
}

proof fn lemma_run_keeps_level(m: MonitorView, steps: Seq<MonitorStep>, id: Seq<char>, level: LevelView)
    requires
        m.wf(),
        remembered_level(m, id, level.name) == Some(level),
        run_keeps_level(m, steps, id, level),
    ensures
        run(m, steps).1.wf(),
        remembered_level(run(m, steps).1, id, level.name) == Some(level),
    decreases steps.len(),
{
    if steps.len() > 0 {
        lemma_run_keeps_level(m, steps.drop_last(), id, level);
        lemma_step_keeps_level(run(m, steps.drop_last()).1, steps.last(), id, level);
    }
}

/// One warning per level until a genuine recovery: once a sample of a controller has
/// announced a warning (alone or with its battery status), whether sampled on its own,
/// in a snapshot or in a refresh, no later sample of that controller announces a warning
/// of the same level name, however many operations come between, as long as none of them
/// disconnects the controller (a snapshot or refresh that leaves it out without
/// disconnecting it is fine), puts a different warning policy in place, or samples it
/// wired or charged above the level's threshold; this holds whether each sample reports a
/// precise or a coarse charge, each judged on its own scale. The level stays remembered
/// all along.
pub proof fn law_one_warning_per_level_until_recovery(
    m: MonitorView,
    first: MonitorStep,
    i: int,
    k: int,
    id: Seq<char>,
    warning: WarningView,
    steps: Seq<MonitorStep>,
    later: ControllerView,
    later_now: u64,
)
    requires
        m.wf(),
        warned_in_step(m, first, i, k, id, warning),
        rest_of_step_keeps_level(m, first, i, id, warning.level),
        run_keeps_level(apply_step(m, first).1, steps, id, warning.level),
        later.id == id,
        !recovers_from(warning.level, later.battery),
    ensures
        ({
            let before = run(apply_step(m, first).1, steps).1;
            let events = observe_connected_spec(before, later, later_now).0;
            &&& remembered_level(before, id, warning.level.name) == Some(warning.level)
            &&& forall|j: int|
                0 <= j < events.len() ==> !(event_warning(#[trigger] events[j]) matches Some(v) && v.level.name
                    == warning.level.name)
        }),
{
    lemma_warning_step_remembers(m, first, i, k, id, warning);
    let after = apply_step(m, first).1;
    lemma_run_keeps_level(after, steps, id, warning.level);
    lemma_sample_keeps_level(run(after, steps).1, later, later_now, id, warning.level);
}

} // verus!
