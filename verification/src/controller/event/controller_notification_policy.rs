use vstd::prelude::*;

use crate::controller::battery::battery_warning::{BatteryWarning, BatteryWarningReading, WarningView};
use crate::controller::battery::charge::{BatteryCharge, percent_string, percent_text};
use crate::controller::battery::kind::BatteryKind;
use crate::controller::battery::level::level_percent;
use crate::controller::battery::reading::BatteryReading;
use crate::controller::controller::{Controller, ControllerView};
use crate::text::decimal;
use crate::notifier::{Notification, NotificationUrgency, NotificationView, notification_view};

verus! {

/// Which connection changes the user wants to hear about.
#[derive(Clone, Copy, Debug)]
pub struct ControllerNotificationPolicy {
    notify_connected: bool,
    notify_disconnected: bool,
}

/// The model of a notification policy: (connected, disconnected).
pub struct NotificationPolicyView {
    pub notify_connected: bool,
    pub notify_disconnected: bool,
}

impl View for ControllerNotificationPolicy {
    type V = NotificationPolicyView;

    closed spec fn view(&self) -> NotificationPolicyView {
        NotificationPolicyView {
            notify_connected: self.notify_connected,
            notify_disconnected: self.notify_disconnected,
        }
    }
}

pub open spec fn battery_status_title() -> Seq<char> {
    "Xbox Controller Battery Status"@
}

/// How a reading is shown to the user: `"wired"`, `"N%"` for a precise charge,
/// `"~N%"` for a coarse one, and nothing when the charge is unknown.
pub open spec fn level_text(battery: BatteryReading) -> Option<Seq<char>> {
    if battery.kind == BatteryKind::Wired {
        Some("wired"@)
    } else {
        match battery.charge {
            BatteryCharge::Precise(percent) => Some(percent_text(percent)),
            BatteryCharge::Coarse(level) => match level_percent(level) {
                Some(percent) => Some("~"@ + percent_text(percent)),
                None => None,
            },
            BatteryCharge::Unknown => None,
        }
    }
}

/// `"Battery level is <text>"`, or `"Battery level is unknown"` without a text.
pub open spec fn battery_level_body(text: Option<Seq<char>>) -> Seq<char> {
    match text {
        Some(text) => "Battery level is "@ + text,
        None => "Battery level is unknown"@,
    }
}

/// A warning's own urgency: urgent levels are urgent, the others high.
pub open spec fn warning_urgency_spec(warning: WarningView) -> NotificationUrgency {
    if warning.level.urgent {
        NotificationUrgency::Urgent
    } else {
        NotificationUrgency::High
    }
}

/// The text of a warning reading: the threshold percentage or the coarse level's percentage.
pub open spec fn warning_reading_text(reading: BatteryWarningReading) -> Option<Seq<char>> {
    match reading {
        BatteryWarningReading::Precise(percent) => Some(percent_text(percent)),
        BatteryWarningReading::Coarse(level) => match level_percent(level) {
            Some(percent) => Some("~"@ + percent_text(percent)),
            None => None,
        },
    }
}

pub open spec fn battery_warning_notification(warning: WarningView) -> NotificationView {
    notification_view(
        battery_status_title(),
        battery_level_body(warning_reading_text(warning.reading)),
        warning_urgency_spec(warning),
    )
}

/// The battery status notification for `controller`: a notifying warning decides the
/// urgency and is shown regardless of the connection setting; otherwise an ordinary
/// status is shown with normal urgency when connection notifications are on.
pub open spec fn battery_status_notification(
    policy: NotificationPolicyView,
    controller: ControllerView,
    warning: Option<WarningView>,
) -> Option<NotificationView> {
    let body = battery_level_body(level_text(controller.battery));
    match warning {
        Some(w) if w.level.notify => Some(
            notification_view(battery_status_title(), body, warning_urgency_spec(w)),
        ),
        _ => if policy.notify_connected {
            Some(notification_view(battery_status_title(), body, NotificationUrgency::Normal))
        } else {
            None
        },
    }
}

pub open spec fn option_text(text: Option<String>) -> Option<Seq<char>> {
    match text {
        Some(text) => Some(text@),
        None => None,
    }
}

/// Renders how `battery` is shown to the user.
pub fn battery_level_text(battery: BatteryReading) -> (text: Option<String>)
    ensures
        option_text(text) == level_text(battery),
{
    if battery.kind == BatteryKind::Wired {
        return Some(String::from_str("wired"));
    }
    match battery.charge {
        BatteryCharge::Precise(percent) => Some(percent_string(percent)),
        BatteryCharge::Coarse(level) => match level.estimated_percent() {
            Some(percent) => {
                let mut text = String::from_str("~");
                let rendered = percent_string(percent);
                text.append(rendered.as_str());
                Some(text)
            },
            None => None,
        },
        BatteryCharge::Unknown => None,
    }
}

/// Renders `"Battery level is <text>"`.
pub fn battery_level_sentence(text: Option<String>) -> (body: String)
    ensures
        body@ == battery_level_body(option_text(text)),
{
    match text {
        Some(text) => {
            let mut body = String::from_str("Battery level is ");
            body.append(text.as_str());
            body
        },
        None => String::from_str("Battery level is unknown"),
    }
}

fn warning_urgency(warning: &BatteryWarning) -> (urgency: NotificationUrgency)
    ensures
        urgency == warning_urgency_spec(warning@),
{
    if warning.urgent() {
        NotificationUrgency::Urgent
    } else {
        NotificationUrgency::High
    }
}

impl ControllerNotificationPolicy {
    pub fn new(notify_connected: bool, notify_disconnected: bool) -> (policy: Self)
        ensures
            policy@ == (NotificationPolicyView { notify_connected, notify_disconnected }),
    {
        ControllerNotificationPolicy { notify_connected, notify_disconnected }
    }

    pub fn notify_connected(&self) -> (notify: bool)
        ensures
            notify == self@.notify_connected,
    {
        self.notify_connected
    }

    pub fn notify_disconnected(&self) -> (notify: bool)
        ensures
            notify == self@.notify_disconnected,
    {
        self.notify_disconnected
    }

    /// The notification for a battery warning on its own.
    pub fn notification_for_battery_warning(&self, warning: &BatteryWarning) -> (notification:
        Notification)
        ensures
            notification@ == battery_warning_notification(warning@),
    {
        let text = match warning.reading() {
            BatteryWarningReading::Precise(percent) => Some(percent_string(percent)),
            BatteryWarningReading::Coarse(level) => match level.estimated_percent() {
                Some(percent) => {
                    let mut text = String::from_str("~");
                    let rendered = percent_string(percent);
                    text.append(rendered.as_str());
                    Some(text)
                },
                None => None,
            },
        };
        let body = battery_level_sentence(text);
        Notification::with_urgency(
            "Xbox Controller Battery Status",
            body.as_str(),
            warning_urgency(warning),
        )
    }

    /// The notification for a settled battery status, with the warning it carries.
    pub fn notification_for_battery_status(
        &self,
        controller: &Controller,
        warning: Option<&BatteryWarning>,
    ) -> (notification: Option<Notification>)
        ensures
            match notification {
                Some(n) => battery_status_notification(
                    self@,
                    controller@,
                    match warning {
                        Some(w) => Some(w@),
                        None => None,
                    },
                ) == Some(n@),
                None => battery_status_notification(
                    self@,
                    controller@,
                    match warning {
                        Some(w) => Some(w@),
                        None => None,
                    },
                ) is None,
            },
    {
        let body = battery_level_sentence(battery_level_text(controller.battery()));
        match warning {
            Some(w) => {
                if w.level().notify() {
                    return Some(
                        Notification::with_urgency(
                            "Xbox Controller Battery Status",
                            body.as_str(),
                            warning_urgency(w),
                        ),
                    );
                }
            },
            None => {},
        }
        if self.notify_connected {
            Some(
                Notification::with_urgency(
                    "Xbox Controller Battery Status",
                    body.as_str(),
                    NotificationUrgency::Normal,
                ),
            )
        } else {
            None
        }
    }
}

impl Default for ControllerNotificationPolicy {
    fn default() -> (policy: Self)
        ensures
            policy@ == (NotificationPolicyView { notify_connected: true, notify_disconnected: true }),
    {
        Self::new(true, true)
    }
}


/// How a reading is shown: a wired controller as `"wired"` whatever its charge; else a
/// precise charge as its percentage and a `%` sign, a coarse level as `~` and its
/// estimate, and an unknown charge (or unknown coarse level) not at all.
pub proof fn law_levels_are_shown_by_percentage(battery: BatteryReading, percent: u8)
    ensures
        battery.kind == BatteryKind::Wired ==> level_text(battery) == Some("wired"@),
        battery.kind != BatteryKind::Wired && battery.charge == BatteryCharge::Precise(percent) ==> level_text(
            battery,
        ) == Some(decimal(percent as nat).push('%')),
        battery.kind != BatteryKind::Wired && (battery.charge matches BatteryCharge::Coarse(l) && level_percent(l)
            == Some(percent)) ==> level_text(battery) == Some("~"@ + decimal(percent as nat).push('%')),
        battery.kind != BatteryKind::Wired && (battery.charge == BatteryCharge::Unknown || battery.charge
            == BatteryCharge::Coarse(crate::controller::battery::level::BatteryLevel::Unknown)) ==> level_text(
            battery,
        ) is None,
{
}

} // verus!
