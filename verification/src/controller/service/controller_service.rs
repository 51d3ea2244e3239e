//! The scheduling decisions of the controller service: when to refresh, how long to
//! wait, and how a refresh's outcome reaches the monitor. The service loop itself,
//! which waits and polls, runs outside the library and follows these decisions.
use vstd::prelude::*;

use crate::controller::controller::Controller;
use crate::controller::event::controller_event::{ControllerEvent, EventView, event_notification};
use crate::controller::event::controller_notification_policy::NotificationPolicyView;
use crate::controller::service::config::ControllerServiceConfig;
use crate::notifier::{Notification, NotificationView, Notifier};
use crate::controller::monitor::controller_monitor::{ControllerMonitor, controllers_view, events_view};
use crate::controller::monitor::model::{defer_due_refreshes_spec, observe_current_spec, observe_pending_spec};

verus! {

/// After the controller topology changes, the controllers are refreshed again this many
/// nanoseconds (a quarter of a second) later, so that the snapshot settles.
pub const TOPOLOGY_SETTLE_DELAY: u64 = 250_000_000;

/// How many follow-up refreshes a topology change gets before it is given up.
pub const TOPOLOGY_SETTLE_ATTEMPTS: u8 = 3;

/// Which refresh is due.
#[derive(Clone, Copy, Debug, PartialEq, Eq, Structural)]
pub enum DueRefresh {
    /// A full snapshot of the connected controllers.
    Current,
    /// A refresh of the controllers whose readings are pending.
    Pending,
}

pub open spec fn min_wait(a: u64, b: u64) -> u64 {
    if a <= b {
        a
    } else {
        b
    }
}

pub open spec fn next_scheduled_wait_spec(regular_wait: u64, pending_wait: Option<u64>) -> u64 {
    match pending_wait {
        Some(pending) => min_wait(regular_wait, pending),
        None => regular_wait,
    }
}

pub open spec fn next_event_wait_spec(
    control_wait: u64,
    regular_poll_wait: u64,
    pending_wait: Option<u64>,
    follow_up_wait: Option<u64>,
) -> u64 {
    let wait = next_scheduled_wait_spec(min_wait(control_wait, regular_poll_wait), pending_wait);
    match follow_up_wait {
        Some(follow_up) => min_wait(wait, follow_up),
        None => wait,
    }
}

/// A full refresh takes precedence: it also serves the pending readings.
pub open spec fn due_refresh_spec(current_refresh_due: bool, pending_refresh_due: bool) -> Option<DueRefresh> {
    if current_refresh_due {
        Some(DueRefresh::Current)
    } else if pending_refresh_due {
        Some(DueRefresh::Pending)
    } else {
        None
    }
}

fn min_of(a: u64, b: u64) -> (m: u64)
    ensures
        m == min_wait(a, b),
{
    if a <= b {
        a
    } else {
        b
    }
}

/// The wait until the next scheduled refresh: the regular poll, or an earlier pending
/// reading.
pub fn next_scheduled_wait(regular_wait: u64, pending_wait: Option<u64>) -> (wait: u64)
    ensures
        wait == next_scheduled_wait_spec(regular_wait, pending_wait),
{
    match pending_wait {
        Some(pending) => min_of(regular_wait, pending),
        None => regular_wait,
    }
}

/// How long the event loop waits for a topology change: never longer than the control
/// slice, and no longer than any scheduled refresh or follow-up.
pub fn next_event_wait(
    control_wait: u64,
    regular_poll_wait: u64,
    pending_wait: Option<u64>,
    follow_up_wait: Option<u64>,
) -> (wait: u64)
    ensures
        wait == next_event_wait_spec(control_wait, regular_poll_wait, pending_wait, follow_up_wait),
{
    let wait = next_scheduled_wait(min_of(control_wait, regular_poll_wait), pending_wait);
    match follow_up_wait {
        Some(follow_up) => min_of(wait, follow_up),
        None => wait,
    }
}

/// The refresh to run when refreshes are due.
pub fn due_refresh(current_refresh_due: bool, pending_refresh_due: bool) -> (due: Option<DueRefresh>)
    ensures
        due == due_refresh_spec(current_refresh_due, pending_refresh_due),
{
    if current_refresh_due {
        Some(DueRefresh::Current)
    } else if pending_refresh_due {
        Some(DueRefresh::Pending)
    } else {
        None
    }
}


/// When the event loop last ran a full refresh, and the follow-up refresh that a
/// topology change (or a failed first refresh) asked for. Times are nanoseconds on the
/// loop's clock.
#[derive(Clone, Copy, Debug, PartialEq, Eq)]
pub struct RefreshSchedule {
    pub last_refresh: u64,
    pub follow_up_refresh_at: Option<u64>,
    pub follow_up_attempts_remaining: u8,
}

/// What the event loop does after waiting.
#[derive(Clone, Copy, Debug, PartialEq, Eq)]
pub struct WakeDecision {
    /// The refresh to run, if any.
    pub refresh: Option<DueRefresh>,
    /// Whether the follow-up refresh was due.
    pub follow_up_due: bool,
}

pub open spec fn saturating_sub_spec(a: u64, b: u64) -> u64 {
    if a >= b {
        (a - b) as u64
    } else {
        0
    }
}

pub open spec fn settle_deadline(now: u64) -> u64 {
    if now + TOPOLOGY_SETTLE_DELAY > u64::MAX {
        u64::MAX
    } else {
        (now + TOPOLOGY_SETTLE_DELAY) as u64
    }
}

/// The schedule right after the first refresh: a failed one asks for follow-ups.
pub open spec fn schedule_start(initial_refresh_failed: bool, now: u64) -> RefreshSchedule {
    RefreshSchedule {
        last_refresh: now,
        follow_up_refresh_at: if initial_refresh_failed {
            Some(settle_deadline(now))
        } else {
            None
        },
        follow_up_attempts_remaining: if initial_refresh_failed {
            TOPOLOGY_SETTLE_ATTEMPTS
        } else {
            0
        },
    }
}

/// The time left until the regular poll is due.
pub open spec fn regular_poll_wait(schedule: RefreshSchedule, poll_interval: u64, now: u64) -> u64 {
    saturating_sub_spec(poll_interval, saturating_sub_spec(now, schedule.last_refresh))
}

pub open spec fn follow_up_wait(schedule: RefreshSchedule, now: u64) -> Option<u64> {
    match schedule.follow_up_refresh_at {
        Some(deadline) => Some(saturating_sub_spec(deadline, now)),
        None => None,
    }
}

/// How long the loop waits for a topology change before it looks again.
pub open spec fn schedule_wait(
    schedule: RefreshSchedule,
    poll_interval: u64,
    control_wait_slice: u64,
    pending_delay: Option<u64>,
    now: u64,
) -> u64 {
    next_event_wait_spec(
        control_wait_slice,
        regular_poll_wait(schedule, poll_interval, now),
        pending_delay,
        follow_up_wait(schedule, now),
    )
}

/// After a wait: a topology change asks for a settled follow-up; then the due refresh
/// is chosen.
pub open spec fn schedule_wake(
    schedule: RefreshSchedule,
    topology_changed: bool,
    poll_interval: u64,
    pending_delay: Option<u64>,
    now: u64,
) -> (WakeDecision, RefreshSchedule) {
    let next = if topology_changed {
        RefreshSchedule {
            follow_up_refresh_at: Some(settle_deadline(now)),
            follow_up_attempts_remaining: TOPOLOGY_SETTLE_ATTEMPTS,
            ..schedule
        }
    } else {
        schedule
    };
    let regular_refresh_due = saturating_sub_spec(now, next.last_refresh) >= poll_interval;
    let follow_up_due = match next.follow_up_refresh_at {
        Some(deadline) => now >= deadline,
        None => false,
    };
    let pending_refresh_due = pending_delay == Some(0u64);
    (
        WakeDecision {
            refresh: due_refresh_spec(topology_changed || regular_refresh_due || follow_up_due, pending_refresh_due),
            follow_up_due,
        },
        next,
    )
}

/// After a full refresh: a due follow-up is done when the refresh succeeded or no
/// attempt is left, and is otherwise tried again after the settle delay.
pub open spec fn schedule_after_current_refresh(
    schedule: RefreshSchedule,
    refresh_succeeded: bool,
    follow_up_due: bool,
    now: u64,
) -> RefreshSchedule {
    let follow_up = if follow_up_due {
        if refresh_succeeded || schedule.follow_up_attempts_remaining <= 1 {
            RefreshSchedule { follow_up_refresh_at: None, follow_up_attempts_remaining: 0, ..schedule }
        } else {
            RefreshSchedule {
                follow_up_refresh_at: Some(settle_deadline(now)),
                follow_up_attempts_remaining: (schedule.follow_up_attempts_remaining - 1) as u8,
                ..schedule
            }
        }
    } else {
        schedule
    };
    RefreshSchedule { last_refresh: now, ..follow_up }
}

/// A schedule is consistent when it never holds more follow-up attempts than a
/// topology change grants, and a planned follow-up has an attempt left.
pub open spec fn schedule_wf(schedule: RefreshSchedule) -> bool {
    &&& schedule.follow_up_attempts_remaining <= TOPOLOGY_SETTLE_ATTEMPTS
    &&& schedule.follow_up_refresh_at is Some ==> schedule.follow_up_attempts_remaining >= 1
}

impl RefreshSchedule {
    pub fn start(initial_refresh_failed: bool, now: u64) -> (schedule: Self)
        ensures
            schedule == schedule_start(initial_refresh_failed, now),
            schedule_wf(schedule),
    {
        RefreshSchedule {
            last_refresh: now,
            follow_up_refresh_at: if initial_refresh_failed {
                Some(now.saturating_add(TOPOLOGY_SETTLE_DELAY))
            } else {
                None
            },
            follow_up_attempts_remaining: if initial_refresh_failed {
                TOPOLOGY_SETTLE_ATTEMPTS
            } else {
                0
            },
        }
    }

    /// How long to wait for a topology change, given the monitor's next refresh delay.
    pub fn wait_timeout(&self, poll_interval: u64, control_wait_slice: u64, pending_delay: Option<u64>, now: u64) -> (wait:
        u64)
        ensures
            wait == schedule_wait(*self, poll_interval, control_wait_slice, pending_delay, now),
    {
        let regular = poll_interval.saturating_sub(now.saturating_sub(self.last_refresh));
        let follow_up = match self.follow_up_refresh_at {
            Some(deadline) => Some(deadline.saturating_sub(now)),
            None => None,
        };
        next_event_wait(control_wait_slice, regular, pending_delay, follow_up)
    }

    /// Decides what to do after waiting, and notes a topology change.
    pub fn wake(&mut self, topology_changed: bool, poll_interval: u64, pending_delay: Option<u64>, now: u64) -> (decision:
        WakeDecision)
        ensures
            (decision, *final(self)) == schedule_wake(*old(self), topology_changed, poll_interval, pending_delay, now),
            schedule_wf(*old(self)) ==> schedule_wf(*final(self)),
    {
        if topology_changed {
            self.follow_up_refresh_at = Some(now.saturating_add(TOPOLOGY_SETTLE_DELAY));
            self.follow_up_attempts_remaining = TOPOLOGY_SETTLE_ATTEMPTS;
        }
        let regular_refresh_due = now.saturating_sub(self.last_refresh) >= poll_interval;
        let follow_up_due = match self.follow_up_refresh_at {
            Some(deadline) => now >= deadline,
            None => false,
        };
        let pending_refresh_due = match pending_delay {
            Some(delay) => delay == 0,
            None => false,
        };
        WakeDecision {
            refresh: due_refresh(topology_changed || regular_refresh_due || follow_up_due, pending_refresh_due),
            follow_up_due,
        }
    }

    /// Notes a full refresh and its outcome.
    pub fn record_current_refresh(&mut self, refresh_succeeded: bool, follow_up_due: bool, now: u64)
        ensures
            *final(self) == schedule_after_current_refresh(*old(self), refresh_succeeded, follow_up_due, now),
            schedule_wf(*old(self)) ==> schedule_wf(*final(self)),
    {
        if follow_up_due {
            if refresh_succeeded || self.follow_up_attempts_remaining <= 1 {
                self.follow_up_refresh_at = None;
                self.follow_up_attempts_remaining = 0;
            } else {
                self.follow_up_attempts_remaining = self.follow_up_attempts_remaining - 1;
                self.follow_up_refresh_at = Some(now.saturating_add(TOPOLOGY_SETTLE_DELAY));
            }
        }
        self.last_refresh = now;
    }
}

/// What the polling loop does next.
#[derive(Clone, Copy, Debug, PartialEq, Eq)]
pub enum PollWait {
    /// Run this refresh now.
    Refresh(DueRefresh),
    /// Sleep this many nanoseconds, then decide again.
    Sleep(u64),
}

/// The polling loop's decision, given the time since the last full refresh and the
/// monitor's next refresh delay.
pub open spec fn poll_wait_spec(
    poll_interval: u64,
    control_wait_slice: u64,
    since_last_refresh: u64,
    pending_wait: Option<u64>,
) -> PollWait {
    let regular_wait = saturating_sub_spec(poll_interval, since_last_refresh);
    let remaining = next_scheduled_wait_spec(regular_wait, pending_wait);
    if remaining == 0 {
        PollWait::Refresh(due_refresh_spec(regular_wait == 0, pending_wait == Some(0u64))->0)
    } else {
        PollWait::Sleep(min_wait(remaining, control_wait_slice))
    }
}

/// Decides whether the polling loop refreshes now or sleeps; it never sleeps longer
/// than the control slice, and refreshes as soon as anything is due.
pub fn poll_wait(poll_interval: u64, control_wait_slice: u64, since_last_refresh: u64, pending_wait: Option<u64>) -> (next:
    PollWait)
    ensures
        next == poll_wait_spec(poll_interval, control_wait_slice, since_last_refresh, pending_wait),
{
    let regular_wait = poll_interval.saturating_sub(since_last_refresh);
    let remaining = next_scheduled_wait(regular_wait, pending_wait);
    if remaining == 0 {
        let pending_due = match pending_wait {
            Some(delay) => delay == 0,
            None => false,
        };
        match due_refresh(regular_wait == 0, pending_due) {
            Some(refresh) => PollWait::Refresh(refresh),
            None => PollWait::Refresh(DueRefresh::Pending),
        }
    } else {
        PollWait::Sleep(min_of(remaining, control_wait_slice))
    }
}

/// The events of a refresh of the pending readings: a successful poll is observed; a
/// failed one postpones (or gives up) the due pending readings.
pub fn pending_refresh_events(monitor: &mut ControllerMonitor, polled: Result<Vec<Controller>, String>) -> (events: Vec<
    ControllerEvent,
>)
    ensures
        match polled {
            Ok(current) => exists|now: u64|
                (events_view(events@), final(monitor)@) == observe_pending_spec(
                    old(monitor)@,
                    controllers_view(current@),
                    now,
                ),
            Err(_) => exists|now: u64|
                (events_view(events@), final(monitor)@) == defer_due_refreshes_spec(old(monitor)@, now),
        },
        old(monitor)@.wf() ==> final(monitor)@.wf(),
{
    match polled {
        Ok(current) => monitor.observe_pending(current),
        Err(_) => monitor.defer_due_refreshes(),
    }
}

/// The events of a full refresh, and whether it succeeded: a successful poll is
/// observed as a snapshot; after a failed one, the pending readings are postponed when
/// one was due before the poll.
pub fn current_refresh_events(
    monitor: &mut ControllerMonitor,
    polled: Result<Vec<Controller>, String>,
    pending_refresh_due: bool,
) -> (outcome: (bool, Vec<ControllerEvent>))
    ensures
        outcome.0 == polled is Ok,
        match polled {
            Ok(current) => exists|now: u64|
                (events_view(outcome.1@), final(monitor)@) == observe_current_spec(
                    old(monitor)@,
                    controllers_view(current@),
                    now,
                ),
            Err(_) => if pending_refresh_due {
                exists|now: u64|
                    (events_view(outcome.1@), final(monitor)@) == defer_due_refreshes_spec(old(monitor)@, now)
            } else {
                outcome.1@.len() == 0 && final(monitor)@ == old(monitor)@
            },
        },
        old(monitor)@.wf() ==> final(monitor)@.wf(),
{
    match polled {
        Ok(current) => (true, monitor.observe_current(current)),
        Err(_) => if pending_refresh_due {
            (false, monitor.defer_due_refreshes())
        } else {
            (false, Vec::new())
        },
    }
}


/// The event loop waits no longer than the control slice, the regular poll, a pending
/// reading or a follow-up, and exactly as long as the first of them.
pub proof fn law_event_wait_is_the_earliest_deadline(
    control_wait: u64,
    regular_poll_wait: u64,
    pending_wait: Option<u64>,
    follow_up_wait: Option<u64>,
)
    ensures
        ({
            let wait = next_event_wait_spec(control_wait, regular_poll_wait, pending_wait, follow_up_wait);
            &&& wait <= control_wait
            &&& wait <= regular_poll_wait
            &&& (pending_wait matches Some(p) ==> wait <= p)
            &&& (follow_up_wait matches Some(f) ==> wait <= f)
            &&& (wait == control_wait || wait == regular_poll_wait || pending_wait == Some(wait) || follow_up_wait
                == Some(wait))
        }),
{
}

/// A full refresh is chosen whenever one is due, and a pending refresh only when no
/// full refresh is due.
pub proof fn law_full_refresh_takes_precedence(current_refresh_due: bool, pending_refresh_due: bool)
    ensures
        current_refresh_due ==> due_refresh_spec(current_refresh_due, pending_refresh_due) == Some(DueRefresh::Current),
        due_refresh_spec(current_refresh_due, pending_refresh_due) == Some(DueRefresh::Pending) <==> (
        !current_refresh_due && pending_refresh_due),
        due_refresh_spec(current_refresh_due, pending_refresh_due) is None <==> (!current_refresh_due
            && !pending_refresh_due),
{
}

/// Each failed follow-up refresh uses up one attempt, or ends the follow-ups when none
/// is left; so a topology change causes at most the allowed number of follow-up
/// refreshes. A successful one ends them.
pub proof fn law_follow_up_refreshes_are_bounded(schedule: RefreshSchedule, refresh_succeeded: bool, now: u64)
    requires
        schedule_wf(schedule),
    ensures
        ({
            let next = schedule_after_current_refresh(schedule, refresh_succeeded, true, now);
            &&& schedule_wf(next)
            &&& next.last_refresh == now
            &&& (refresh_succeeded ==> next.follow_up_refresh_at is None)
            &&& (next.follow_up_refresh_at is None || next.follow_up_attempts_remaining
                < schedule.follow_up_attempts_remaining)
        }),
{
}

/// The polling loop sleeps only while nothing is due, never longer than the control
/// slice nor past the next deadline, and otherwise refreshes at once.
pub proof fn law_polling_sleeps_only_until_the_next_deadline(
    poll_interval: u64,
    control_wait_slice: u64,
    since_last_refresh: u64,
    pending_wait: Option<u64>,
)
    ensures
        ({
            let regular_wait = saturating_sub_spec(poll_interval, since_last_refresh);
            match poll_wait_spec(poll_interval, control_wait_slice, since_last_refresh, pending_wait) {
                PollWait::Sleep(duration) => {
                    &&& duration <= control_wait_slice
                    &&& duration <= regular_wait
                    &&& (pending_wait matches Some(p) ==> duration <= p)
                    &&& regular_wait > 0
                    &&& pending_wait != Some(0u64)
                },
                PollWait::Refresh(refresh) => {
                    &&& (refresh == DueRefresh::Current) == (regular_wait == 0)
                    &&& (refresh == DueRefresh::Pending) ==> pending_wait == Some(0u64)
                },
            }
        }),
{
}

/// The notifications that events produce under a policy, in the order of the events.
pub open spec fn event_notifications(events: Seq<EventView>, policy: NotificationPolicyView) -> Seq<NotificationView>
    decreases events.len(),
{
    if events.len() == 0 {
        Seq::empty()
    } else {
        let earlier = event_notifications(events.drop_last(), policy);
        match event_notification(events.last(), policy) {
            Some(n) => earlier.push(n),
            None => earlier,
        }
    }
}

/// Hands the notification of each event, in order, to the notifier, and returns each
/// notification with the notifier's answer; a failed delivery does not stop the ones
/// after it.
pub fn notify_events<N: Notifier>(
    notifier: &N,
    config: &ControllerServiceConfig,
    events: Vec<ControllerEvent>,
) -> (deliveries: Vec<(Notification, Result<(), String>)>)
    ensures
        deliveries@.len() == event_notifications(events_view(events@), config@.notification_policy).len(),
        forall|i: int|
            0 <= i < deliveries@.len() ==> (#[trigger] deliveries@[i]).0@ == event_notifications(
                events_view(events@),
                config@.notification_policy,
            )[i],
{
    let policy = config.notification_policy();
    let ghost all = events_view(events@);
    let mut deliveries: Vec<(Notification, Result<(), String>)> = Vec::new();
    let mut i: usize = 0;
    while i < events.len()
        invariant
            i <= events.len(),
            all == events_view(events@),
            policy@ == config@.notification_policy,
            deliveries@.len() == event_notifications(all.take(i as int), policy@).len(),
            forall|j: int|
                0 <= j < deliveries@.len() ==> (#[trigger] deliveries@[j]).0@ == event_notifications(
                    all.take(i as int),
                    policy@,
                )[j],
        decreases events.len() - i,
    {
        let notification = events[i].notification(policy);
        proof {
            assert(all.take(i + 1).drop_last() =~= all.take(i as int));
            assert(all.take(i + 1).last() == events@[i as int]@);
        }
        match notification {
            Some(n) => {
                let outcome = notifier.notify(&n);
                deliveries.push((n, outcome));
            },
            None => {},
        }
        i = i + 1;
    }
    proof {
        assert(all.take(events.len() as int) =~= all);
    }
    deliveries
}

} // verus!
