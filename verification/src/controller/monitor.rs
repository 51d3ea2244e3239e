//! Turning snapshots and single samples of sourced controllers into events.
use vstd::prelude::*;

use super::battery::warning::{BatteryWarningPolicy, threshold_warning_between};
use super::event::{ControllerEvent, SourcedEventView};
use super::sourced::{Controller, SourcedControllerView};
use crate::text::same_text;

pub mod clock;
pub mod controller_monitor;
pub mod keyed;
pub mod laws;
pub mod model;
pub mod pending;
pub mod warning_memory;

verus! {

/// Compares each snapshot of sourced controllers with the previous one.
#[derive(Clone, Debug)]
pub struct ControllerMonitor {
    previous: Vec<Controller>,
    warning_policy: BatteryWarningPolicy,
}

/// The model of the monitor: the last snapshot and the policy's thresholds.
pub struct SourcedMonitorView {
    pub previous: Seq<SourcedControllerView>,
    pub thresholds: Seq<u8>,
}

impl View for ControllerMonitor {
    type V = SourcedMonitorView;

    closed spec fn view(&self) -> SourcedMonitorView {
        SourcedMonitorView { previous: sourced_view(self.previous@), thresholds: self.warning_policy@ }
    }
}

pub open spec fn sourced_view(controllers: Seq<Controller>) -> Seq<SourcedControllerView> {
    controllers.map_values(|c: Controller| c@)
}

pub open spec fn sourced_events_view(events: Seq<ControllerEvent>) -> Seq<SourcedEventView> {
    events.map_values(|e: ControllerEvent| e@)
}

/// The first position of the controller with identity `id`.
pub open spec fn first_index(controllers: Seq<SourcedControllerView>, id: Seq<char>) -> Option<int>
    decreases controllers.len(),
{
    if controllers.len() == 0 {
        None
    } else {
        let prefix = first_index(controllers.drop_last(), id);
        if prefix is Some {
            prefix
        } else if controllers.last().id == id {
            Some(controllers.len() - 1)
        } else {
            None
        }
    }
}

/// The last position of the controller with identity `id`.
pub open spec fn last_index(controllers: Seq<SourcedControllerView>, id: Seq<char>) -> Option<int>
    decreases controllers.len(),
{
    if controllers.len() == 0 {
        None
    } else if controllers.last().id == id {
        Some(controllers.len() - 1)
    } else {
        last_index(controllers.drop_last(), id)
    }
}

/// What one controller of a snapshot announces, compared with the previous snapshot
/// (the last entry with its identity): a connection, or a warning.
pub open spec fn snapshot_entry_events(
    previous: Seq<SourcedControllerView>,
    thresholds: Seq<u8>,
    c: SourcedControllerView,
) -> Seq<SourcedEventView> {
    match last_index(previous, c.id) {
        None => seq![SourcedEventView::Connected(c)],
        Some(i) => match threshold_warning_between(thresholds, previous[i].battery, c.battery) {
            Some(warning) => seq![SourcedEventView::BatteryWarning { current: c, warning }],
            None => Seq::empty(),
        },
    }
}

pub open spec fn arrivals_and_warnings(
    previous: Seq<SourcedControllerView>,
    thresholds: Seq<u8>,
    current: Seq<SourcedControllerView>,
) -> Seq<SourcedEventView>
    decreases current.len(),
{
    if current.len() == 0 {
        Seq::empty()
    } else {
        arrivals_and_warnings(previous, thresholds, current.drop_last()) + snapshot_entry_events(
            previous,
            thresholds,
            current.last(),
        )
    }
}

/// A disconnection for each previous controller whose identity the snapshot lacks.
pub open spec fn departures(previous: Seq<SourcedControllerView>, current: Seq<SourcedControllerView>) -> Seq<
    SourcedEventView,
>
    decreases previous.len(),
{
    if previous.len() == 0 {
        Seq::empty()
    } else {
        let earlier = departures(previous.drop_last(), current);
        if first_index(current, previous.last().id) is Some {
            earlier
        } else {
            earlier.push(SourcedEventView::Disconnected(previous.last()))
        }
    }
}

/// The events of a snapshot: arrivals and warnings in snapshot order, then departures
/// in the order of the previous snapshot.
pub open spec fn snapshot_events(
    previous: Seq<SourcedControllerView>,
    thresholds: Seq<u8>,
    current: Seq<SourcedControllerView>,
) -> Seq<SourcedEventView> {
    arrivals_and_warnings(previous, thresholds, current) + departures(previous, current)
}

/// One sample of a controller that is connected or, when `is_connected` is false, gone.
pub open spec fn incremental_spec(m: SourcedMonitorView, c: SourcedControllerView, is_connected: bool) -> (
    Seq<SourcedEventView>,
    SourcedMonitorView,
) {
    match first_index(m.previous, c.id) {
        Some(i) => if is_connected {
            let events = match threshold_warning_between(m.thresholds, m.previous[i].battery, c.battery) {
                Some(warning) => seq![SourcedEventView::BatteryWarning { current: c, warning }],
                None => Seq::empty(),
            };
            (events, SourcedMonitorView { previous: m.previous.update(i, c), ..m })
        } else {
            (
                seq![SourcedEventView::Disconnected(m.previous[i])],
                SourcedMonitorView { previous: m.previous.remove(i), ..m },
            )
        },
        None => if is_connected {
            (seq![SourcedEventView::Connected(c)], SourcedMonitorView { previous: m.previous.push(c), ..m })
        } else {
            (Seq::empty(), m)
        },
    }
}

proof fn lemma_first_index_prefix(controllers: Seq<SourcedControllerView>, k: int, id: Seq<char>)
    requires
        0 <= k <= controllers.len(),
        first_index(controllers.take(k), id) is Some,
    ensures
        first_index(controllers, id) == first_index(controllers.take(k), id),
    decreases controllers.len(),
{
    if k == controllers.len() {
        assert(controllers.take(k) =~= controllers);
    } else {
        assert(controllers.drop_last().take(k) =~= controllers.take(k));
        lemma_first_index_prefix(controllers.drop_last(), k, id);
    }
}

fn first_position(controllers: &Vec<Controller>, id: &str) -> (found: Option<usize>)
    ensures
        match found {
            Some(i) => first_index(sourced_view(controllers@), id@) == Some(i as int) && i < controllers@.len(),
            None => first_index(sourced_view(controllers@), id@) is None,
        },
{
    let ghost view = sourced_view(controllers@);
    let mut i: usize = 0;
    while i < controllers.len()
        invariant
            i <= controllers.len(),
            view == sourced_view(controllers@),
            view.len() == controllers.len(),
            first_index(view.take(i as int), id@) is None,
        decreases controllers.len() - i,
    {
        assert(view.take(i + 1).drop_last() =~= view.take(i as int));
        if same_text(controllers[i].id(), id) {
            proof {
                lemma_first_index_prefix(view, i + 1, id@);
            }
            return Some(i);
        }
        i = i + 1;
    }
    assert(view.take(view.len() as int) =~= view);
    None
}

fn last_position(controllers: &Vec<Controller>, id: &str) -> (found: Option<usize>)
    ensures
        match found {
            Some(i) => last_index(sourced_view(controllers@), id@) == Some(i as int) && i < controllers@.len(),
            None => last_index(sourced_view(controllers@), id@) is None,
        },
{
    let ghost view = sourced_view(controllers@);
    let mut i: usize = controllers.len();
    assert(view.take(i as int) =~= view);
    while i > 0
        invariant
            i <= controllers.len(),
            view == sourced_view(controllers@),
            view.len() == controllers.len(),
            last_index(view, id@) == last_index(view.take(i as int), id@),
        decreases i,
    {
        assert(view.take(i as int).drop_last() =~= view.take(i - 1));
        if same_text(controllers[i - 1].id(), id) {
            return Some(i - 1);
        }
        i = i - 1;
    }
    None
}

impl ControllerMonitor {
    /// A monitor with the default thresholds and no controllers.
    pub fn new() -> (monitor: Self)
        ensures
            monitor@ == (SourcedMonitorView {
                previous: Seq::empty(),
                thresholds: super::battery::warning::default_thresholds(),
            }),
    {
        Self::with_warning_policy(BatteryWarningPolicy::default())
    }

    pub fn with_warning_policy(warning_policy: BatteryWarningPolicy) -> (monitor: Self)
        ensures
            monitor@ == (SourcedMonitorView { previous: Seq::empty(), thresholds: warning_policy@ }),
    {
        let monitor = ControllerMonitor { previous: Vec::new(), warning_policy };
        assert(monitor@.previous =~= Seq::empty());
        monitor
    }

    pub fn set_warning_policy(&mut self, warning_policy: BatteryWarningPolicy)
        ensures
            final(self)@ == (SourcedMonitorView { thresholds: warning_policy@, ..old(self)@ }),
    {
        self.warning_policy = warning_policy;
    }

    /// A snapshot of the connected controllers: announces arrivals, warnings and
    /// departures, then keeps the snapshot.
    pub fn observe_current(&mut self, current: Vec<Controller>) -> (events: Vec<ControllerEvent>)
        ensures
            sourced_events_view(events@) == snapshot_events(old(self)@.previous, old(self)@.thresholds, sourced_view(current@)),
            final(self)@ == (SourcedMonitorView { previous: sourced_view(current@), ..old(self)@ }),
    {
        let events = self.collect_events(&current);
        self.previous = current;
        events
    }

    /// One sample of a controller that is connected or, when `is_connected` is false, gone.
    pub fn observe_incremental(&mut self, controller: Controller, is_connected: bool) -> (events: Vec<ControllerEvent>)
        ensures
            (sourced_events_view(events@), final(self)@) == incremental_spec(old(self)@, controller@, is_connected),
    {
        let mut events: Vec<ControllerEvent> = Vec::new();
        let ghost before = self.previous@;
        match first_position(&self.previous, controller.id()) {
            Some(index) => {
                if is_connected {
                    match self.warning_between(&self.previous[index], &controller) {
                        Some(warning) => events.push(ControllerEvent::BatteryWarning { current: controller.clone(), warning }),
                        None => {},
                    }
                    let ghost c = controller@;
                    self.previous.set(index, controller);
                    assert(sourced_view(self.previous@) =~= sourced_view(before).update(index as int, c));
                } else {
                    let removed = self.previous.remove(index);
                    assert(sourced_view(self.previous@) =~= sourced_view(before).remove(index as int));
                    events.push(ControllerEvent::Disconnected(removed));
                }
            },
            None => {
                if is_connected {
                    events.push(ControllerEvent::Connected(controller.clone()));
                    let ghost c = controller@;
                    self.previous.push(controller);
                    assert(sourced_view(self.previous@) =~= sourced_view(before).push(c));
                }
            },
        }
        assert(sourced_events_view(events@) =~= incremental_spec(old(self)@, controller@, is_connected).0);
        events
    }

    fn collect_events(&self, current: &Vec<Controller>) -> (events: Vec<ControllerEvent>)
        ensures
            sourced_events_view(events@) == snapshot_events(self@.previous, self@.thresholds, sourced_view(current@)),
    {
        let ghost previous = self@.previous;
        let ghost thresholds = self@.thresholds;
        let ghost all = sourced_view(current@);
        let mut events: Vec<ControllerEvent> = Vec::new();
        let mut i: usize = 0;
        while i < current.len()
            invariant
                i <= current.len(),
                previous == self@.previous,
                thresholds == self@.thresholds,
                all == sourced_view(current@),
                all.len() == current.len(),
                sourced_events_view(events@) == arrivals_and_warnings(previous, thresholds, all.take(i as int)),
            decreases current.len() - i,
        {
            assert(all.take(i + 1).drop_last() =~= all.take(i as int));
            let ghost before = events@;
            let controller = &current[i];
            match last_position(&self.previous, controller.id()) {
                None => events.push(ControllerEvent::Connected(controller.clone())),
                Some(index) => match self.warning_between(&self.previous[index], controller) {
                    Some(warning) => events.push(ControllerEvent::BatteryWarning { current: controller.clone(), warning }),
                    None => {},
                },
            }
            assert(sourced_events_view(events@) =~= sourced_events_view(before) + snapshot_entry_events(
                previous,
                thresholds,
                all[i as int],
            ));
            i = i + 1;
        }
        assert(all.take(all.len() as int) =~= all);
        let ghost arrivals = events@;
        let mut j: usize = 0;
        while j < self.previous.len()
            invariant
                j <= self.previous.len(),
                previous == self@.previous,
                previous.len() == self.previous.len(),
                all == sourced_view(current@),
                sourced_events_view(events@) == sourced_events_view(arrivals) + departures(previous.take(j as int), all),
            decreases self.previous.len() - j,
        {
            assert(previous.take(j + 1).drop_last() =~= previous.take(j as int));
            let ghost before = events@;
            let controller = &self.previous[j];
            if first_position(current, controller.id()).is_none() {
                events.push(ControllerEvent::Disconnected(controller.clone()));
                assert(sourced_events_view(events@) =~= sourced_events_view(before).push(
                    SourcedEventView::Disconnected(previous[j as int]),
                ));
            }
            j = j + 1;
        }
        assert(previous.take(previous.len() as int) =~= previous);
        events
    }

    fn warning_between(&self, previous: &Controller, current: &Controller) -> (warning: Option<
        super::battery::warning::BatteryWarning,
    >)
        ensures
            warning == threshold_warning_between(self@.thresholds, previous@.battery, current@.battery),
    {
        self.warning_policy.warning_between(previous.battery(), current.battery())
    }
}

proof fn lemma_first_index_of_pushed(controllers: Seq<SourcedControllerView>, c: SourcedControllerView)
    requires
        first_index(controllers, c.id) is None,
    ensures
        first_index(controllers.push(c), c.id) == Some(controllers.len() as int),
{
    assert(controllers.push(c).drop_last() =~= controllers);
}

/// Connecting a controller the monitor does not know and then disconnecting it leaves
/// the monitor as it was, announcing the connection and then the disconnection.
pub proof fn law_connect_then_disconnect_restores_the_monitor(m: SourcedMonitorView, c: SourcedControllerView)
    requires
        first_index(m.previous, c.id) is None,
    ensures
        ({
            let (connected, m1) = incremental_spec(m, c, true);
            let (disconnected, m2) = incremental_spec(m1, c, false);
            &&& connected == seq![SourcedEventView::Connected(c)]
            &&& disconnected == seq![SourcedEventView::Disconnected(c)]
            &&& m2 == m
        }),
{
    lemma_first_index_of_pushed(m.previous, c);
    assert(m.previous.push(c).remove(m.previous.len() as int) =~= m.previous);
}

/// After a snapshot the monitor remembers exactly that snapshot, and every controller
/// that was known and is missing from it is announced as disconnected.
pub proof fn law_snapshot_replaces_the_previous_one(
    m: SourcedMonitorView,
    current: Seq<SourcedControllerView>,
    j: int,
)
    requires
        0 <= j < m.previous.len(),
        first_index(current, m.previous[j].id) is None,
    ensures
        departures(m.previous, current).contains(SourcedEventView::Disconnected(m.previous[j])),
    decreases m.previous.len(),
{
    let prefix = m.previous.drop_last();
    if j == m.previous.len() - 1 {
        let d = departures(prefix, current);
        assert(d.push(SourcedEventView::Disconnected(m.previous[j]))[d.len() as int] == SourcedEventView::Disconnected(
            m.previous[j],
        ));
    } else {
        assert(prefix[j] == m.previous[j]);
        law_snapshot_replaces_the_previous_one(SourcedMonitorView { previous: prefix, ..m }, current, j);
        let d = departures(prefix, current);
        let w = choose|w: int| 0 <= w < d.len() && d[w] == SourcedEventView::Disconnected(m.previous[j]);
        if first_index(current, m.previous.last().id) is None {
            assert(d.push(SourcedEventView::Disconnected(m.previous.last()))[w] == d[w]);
        }
    }
}

impl Default for ControllerMonitor {
    fn default() -> (monitor: Self)
        ensures
            monitor@ == (SourcedMonitorView {
                previous: Seq::empty(),
                thresholds: super::battery::warning::default_thresholds(),
            }),
    {
        Self::new()
    }
}

} // verus!
