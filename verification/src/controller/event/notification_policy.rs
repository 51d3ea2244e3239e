//! Battery status notifications for threshold warnings.
use vstd::prelude::*;

use crate::controller::battery::charge::{percent_string, percent_text};
use crate::controller::battery::level::BatteryLevel;
use crate::controller::battery::warning::BatteryWarning;
use crate::controller::event::{coarse_urgency, estimated_text, precise_urgency, ThresholdPolicyView};
use crate::notifier::{Notification, NotificationView, notification_view};

verus! {

/// When connection notifications are shown, and from which precise percentage a
/// battery status is urgent.
#[derive(Clone, Copy, Debug)]
pub struct ControllerNotificationPolicy {
    urgent_precise_threshold_percent: u8,
    notify_connected: bool,
    notify_disconnected: bool,
}

impl View for ControllerNotificationPolicy {
    type V = ThresholdPolicyView;

    closed spec fn view(&self) -> ThresholdPolicyView {
        ThresholdPolicyView {
            urgent_precise_threshold_percent: self.urgent_precise_threshold_percent,
            notify_connected: self.notify_connected,
            notify_disconnected: self.notify_disconnected,
        }
    }
}

/// `"Battery level is N%"` for a precise warning, `"Battery level is ~N%"` for a
/// coarse one, under the battery status title.
pub open spec fn threshold_warning_notification(policy: ThresholdPolicyView, warning: BatteryWarning) -> NotificationView {
    match warning {
        BatteryWarning::Precise(percent) => notification_view(
            "Xbox Controller Battery Status"@,
            "Battery level is "@ + percent_text(percent),
            precise_urgency(policy, percent),
        ),
        BatteryWarning::Coarse(level) => notification_view(
            "Xbox Controller Battery Status"@,
            "Battery level is ~"@ + estimated_text(level),
            coarse_urgency(level),
        ),
    }
}

impl ControllerNotificationPolicy {
    pub fn new(urgent_precise_threshold_percent: u8) -> (policy: Self)
        ensures
            policy@ == (ThresholdPolicyView {
                urgent_precise_threshold_percent,
                notify_connected: true,
                notify_disconnected: true,
            }),
    {
        ControllerNotificationPolicy { urgent_precise_threshold_percent, notify_connected: true, notify_disconnected: true }
    }

    pub fn with_connectivity_notifications(self, notify_connected: bool, notify_disconnected: bool) -> (policy: Self)
        ensures
            policy@ == (ThresholdPolicyView { notify_connected, notify_disconnected, ..self@ }),
    {
        ControllerNotificationPolicy { notify_connected, notify_disconnected, ..self }
    }

    pub fn notify_connected(&self) -> (notify: bool)
        ensures
            notify == self@.notify_connected,
    {
        self.notify_connected
    }

    pub fn notify_disconnected(&self) -> (notify: bool)
        ensures
            notify == self@.notify_disconnected,
    {
        self.notify_disconnected
    }

    pub fn notification_for_battery_warning(&self, warning: BatteryWarning) -> (notification: Notification)
        ensures
            notification@ == threshold_warning_notification(self@, warning),
    {
        match warning {
            BatteryWarning::Precise(percent) => {
                let mut body = String::from_str("Battery level is ");
                body.append(percent_string(percent).as_str());
                let urgency = if percent <= self.urgent_precise_threshold_percent {
                    crate::notifier::NotificationUrgency::Urgent
                } else {
                    crate::notifier::NotificationUrgency::High
                };
                Notification::with_urgency("Xbox Controller Battery Status", body.as_str(), urgency)
            },
            BatteryWarning::Coarse(level) => {
                let mut body = String::from_str("Battery level is ~");
                let estimated = match level.estimated_percent() {
                    Some(percent) => percent_string(percent),
                    None => String::from_str("unknown"),
                };
                body.append(estimated.as_str());
                let urgency = match level {
                    BatteryLevel::Empty => crate::notifier::NotificationUrgency::Urgent,
                    BatteryLevel::Low | BatteryLevel::Medium => crate::notifier::NotificationUrgency::High,
                    _ => crate::notifier::NotificationUrgency::Normal,
                };
                Notification::with_urgency("Xbox Controller Battery Status", body.as_str(), urgency)
            },
        }
    }
}

impl Default for ControllerNotificationPolicy {
    fn default() -> (policy: Self)
        ensures
            policy@ == (ThresholdPolicyView {
                urgent_precise_threshold_percent: 10,
                notify_connected: true,
                notify_disconnected: true,
            }),
    {
        Self::new(10)
    }
}

} // verus!
