//! Events about sourced controllers, and the notifications they produce under a policy
//! of urgency thresholds.
use vstd::prelude::*;

use super::battery::charge::percent_string;
use super::battery::charge::percent_text;
use super::battery::level::{BatteryLevel, level_name, level_percent};
use super::battery::reading::reading_description;
use super::battery::warning::BatteryWarning;
use super::source::source_label;
use super::sourced::{Controller, SourcedControllerView};
use crate::notifier::{
    Notification, NotificationUrgency, NotificationView, notification_option_view, notification_view,
};

pub mod controller_event;
pub mod controller_notification_policy;
pub mod notification_policy;

verus! {

/// What happened to a sourced controller.
#[derive(Clone, Debug, PartialEq, Eq)]
pub enum ControllerEvent {
    Connected(Controller),
    Disconnected(Controller),
    BatteryWarning { current: Controller, warning: BatteryWarning },
}

/// The model of an event about a sourced controller.
pub enum SourcedEventView {
    Connected(SourcedControllerView),
    Disconnected(SourcedControllerView),
    BatteryWarning { current: SourcedControllerView, warning: BatteryWarning },
}

impl View for ControllerEvent {
    type V = SourcedEventView;

    open spec fn view(&self) -> SourcedEventView {
        match self {
            ControllerEvent::Connected(c) => SourcedEventView::Connected(c@),
            ControllerEvent::Disconnected(c) => SourcedEventView::Disconnected(c@),
            ControllerEvent::BatteryWarning { current, warning } => SourcedEventView::BatteryWarning {
                current: current@,
                warning: *warning,
            },
        }
    }
}

/// When notifications about connections are shown, and from which precise percentage
/// a battery warning is urgent.
#[derive(Clone, Copy, Debug)]
pub struct ControllerNotificationPolicy {
    urgent_precise_threshold_percent: u8,
    notify_connected: bool,
    notify_disconnected: bool,
}

/// The model of an urgency-threshold policy.
pub struct ThresholdPolicyView {
    pub urgent_precise_threshold_percent: u8,
    pub notify_connected: bool,
    pub notify_disconnected: bool,
}

impl View for ControllerNotificationPolicy {
    type V = ThresholdPolicyView;

    closed spec fn view(&self) -> ThresholdPolicyView {
        ThresholdPolicyView {
            urgent_precise_threshold_percent: self.urgent_precise_threshold_percent,
            notify_connected: self.notify_connected,
            notify_disconnected: self.notify_disconnected,
        }
    }
}

/// A precise warning at or below the urgent threshold is urgent, others are high.
pub open spec fn precise_urgency(policy: ThresholdPolicyView, percent: u8) -> NotificationUrgency {
    if percent <= policy.urgent_precise_threshold_percent {
        NotificationUrgency::Urgent
    } else {
        NotificationUrgency::High
    }
}

/// An empty level is urgent, low and medium are high, full (and unknown) normal.
pub open spec fn coarse_urgency(level: BatteryLevel) -> NotificationUrgency {
    match level {
        BatteryLevel::Empty => NotificationUrgency::Urgent,
        BatteryLevel::Low | BatteryLevel::Medium => NotificationUrgency::High,
        _ => NotificationUrgency::Normal,
    }
}

/// `"N%"` for the percentage a level stands for, `"unknown"` without one.
pub open spec fn estimated_text(level: BatteryLevel) -> Seq<char> {
    match level_percent(level) {
        Some(percent) => percent_text(percent),
        None => "unknown"@,
    }
}

/// `"Battery: <reading>. Source: <source>."`
pub open spec fn battery_and_source(c: SourcedControllerView) -> Seq<char> {
    "Battery: "@ + reading_description(c.battery) + ". Source: "@ + source_label(c.source) + "."@
}

/// The notification an event produces under a policy.
pub open spec fn sourced_event_notification(event: SourcedEventView, policy: ThresholdPolicyView) -> Option<
    NotificationView,
> {
    match event {
        SourcedEventView::Connected(c) => if policy.notify_connected {
            Some(notification_view(c.name + " connected"@, battery_and_source(c), NotificationUrgency::Normal))
        } else {
            None
        },
        SourcedEventView::Disconnected(c) => if policy.notify_disconnected {
            Some(
                notification_view(
                    c.name + " disconnected"@,
                    "The controller is no longer connected."@,
                    NotificationUrgency::Normal,
                ),
            )
        } else {
            None
        },
        SourcedEventView::BatteryWarning { current, warning } => match warning {
            BatteryWarning::Precise(percent) => Some(
                notification_view(
                    current.name + " battery "@ + percent_text(percent),
                    "Current level: "@ + reading_description(current.battery) + ". Source: "@ + source_label(
                        current.source,
                    ) + "."@,
                    precise_urgency(policy, percent),
                ),
            ),
            BatteryWarning::Coarse(level) => Some(
                notification_view(
                    current.name + " battery "@ + level_name(level),
                    "Estimated level: "@ + estimated_text(level) + ". Source: XInput coarse battery state."@,
                    coarse_urgency(level),
                ),
            ),
        },
    }
}

pub open spec fn event_controller(event: SourcedEventView) -> SourcedControllerView {
    match event {
        SourcedEventView::Connected(c) => c,
        SourcedEventView::Disconnected(c) => c,
        SourcedEventView::BatteryWarning { current, .. } => current,
    }
}

fn estimated_level_text(level: BatteryLevel) -> (text: String)
    ensures
        text@ == estimated_text(level),
{
    match level.estimated_percent() {
        Some(percent) => percent_string(percent),
        None => String::from_str("unknown"),
    }
}

impl ControllerEvent {
    /// The controller the event is about.
    pub fn controller(&self) -> (controller: &Controller)
        ensures
            controller@ == event_controller(self@),
    {
        match self {
            ControllerEvent::Connected(controller) => controller,
            ControllerEvent::Disconnected(controller) => controller,
            ControllerEvent::BatteryWarning { current, .. } => current,
        }
    }

    pub fn notification(&self, policy: &ControllerNotificationPolicy) -> (notification: Option<Notification>)
        ensures
            notification_option_view(notification) == sourced_event_notification(self@, policy@),
    {
        match self {
            ControllerEvent::Connected(controller) => {
                if !policy.notify_connected {
                    return None;
                }
                let mut title = String::from_str(controller.name());
                title.append(" connected");
                let mut body = String::from_str("Battery: ");
                body.append(controller.battery().description().as_str());
                body.append(". Source: ");
                body.append(controller.source().label());
                body.append(".");
                Some(Notification::new(title.as_str(), body.as_str()))
            },
            ControllerEvent::Disconnected(controller) => {
                if !policy.notify_disconnected {
                    return None;
                }
                let mut title = String::from_str(controller.name());
                title.append(" disconnected");
                Some(Notification::new(title.as_str(), "The controller is no longer connected."))
            },
            ControllerEvent::BatteryWarning { current, warning } => match warning {
                BatteryWarning::Precise(percent) => {
                    let mut title = String::from_str(current.name());
                    title.append(" battery ");
                    title.append(percent_string(*percent).as_str());
                    let mut body = String::from_str("Current level: ");
                    body.append(current.battery().description().as_str());
                    body.append(". Source: ");
                    body.append(current.source().label());
                    body.append(".");
                    Some(
                        Notification::with_urgency(
                            title.as_str(),
                            body.as_str(),
                            policy.precise_warning_urgency(*percent),
                        ),
                    )
                },
                BatteryWarning::Coarse(level) => {
                    let mut title = String::from_str(current.name());
                    title.append(" battery ");
                    title.append(level.to_string().as_str());
                    let mut body = String::from_str("Estimated level: ");
                    body.append(estimated_level_text(*level).as_str());
                    body.append(". Source: XInput coarse battery state.");
                    Some(
                        Notification::with_urgency(
                            title.as_str(),
                            body.as_str(),
                            ControllerNotificationPolicy::coarse_warning_urgency(*level),
                        ),
                    )
                },
            },
        }
    }
}

impl ControllerNotificationPolicy {
    /// Connections and disconnections notify; precise warnings at or below
    /// `urgent_precise_threshold_percent` are urgent.
    pub fn new(urgent_precise_threshold_percent: u8) -> (policy: Self)
        ensures
            policy@ == (ThresholdPolicyView {
                urgent_precise_threshold_percent,
                notify_connected: true,
                notify_disconnected: true,
            }),
    {
        ControllerNotificationPolicy { urgent_precise_threshold_percent, notify_connected: true, notify_disconnected: true }
    }

    pub fn with_connectivity_notifications(self, notify_connected: bool, notify_disconnected: bool) -> (policy: Self)
        ensures
            policy@ == (ThresholdPolicyView { notify_connected, notify_disconnected, ..self@ }),
    {
        ControllerNotificationPolicy { notify_connected, notify_disconnected, ..self }
    }

    fn precise_warning_urgency(&self, percent: u8) -> (urgency: NotificationUrgency)
        ensures
            urgency == precise_urgency(self@, percent),
    {
        if percent <= self.urgent_precise_threshold_percent {
            NotificationUrgency::Urgent
        } else {
            NotificationUrgency::High
        }
    }

    fn coarse_warning_urgency(level: BatteryLevel) -> (urgency: NotificationUrgency)
        ensures
            urgency == coarse_urgency(level),
    {
        match level {
            BatteryLevel::Empty => NotificationUrgency::Urgent,
            BatteryLevel::Low | BatteryLevel::Medium => NotificationUrgency::High,
            _ => NotificationUrgency::Normal,
        }
    }
}

/// The urgency threshold of the default policy: 10%.
pub const DEFAULT_URGENT_PRECISE_THRESHOLD_PERCENT: u8 = 10;

impl Default for ControllerNotificationPolicy {
    fn default() -> (policy: Self)
        ensures
            policy@ == (ThresholdPolicyView {
                urgent_precise_threshold_percent: DEFAULT_URGENT_PRECISE_THRESHOLD_PERCENT,
                notify_connected: true,
                notify_disconnected: true,
            }),
    {
        Self::new(DEFAULT_URGENT_PRECISE_THRESHOLD_PERCENT)
    }
}

} // verus!
