use vstd::prelude::*;

use super::controller_notification_policy::{
    ControllerNotificationPolicy, NotificationPolicyView, battery_level_text, battery_status_notification,
    battery_warning_notification, level_text, option_text,
};
use crate::audio::AudioClip;
use crate::controller::battery::battery_warning::{BatteryWarning, WarningView};
use crate::controller::controller::{Controller, ControllerView};
use crate::notifier::{
    Notification, NotificationUrgency, NotificationView, notification_option_view, notification_view,
};

verus! {

/// What happened to a controller, as far as the user is concerned.
#[allow(inconsistent_fields)]
#[derive(Clone, Debug, PartialEq, Eq)]
pub enum ControllerEvent {
    Connected(Controller),
    Disconnected(Controller),
    BatteryStatus { controller: Controller, warning: Option<BatteryWarning> },
    BatteryWarning { warning: BatteryWarning },
}

/// The model of a controller event.
#[allow(inconsistent_fields)]
pub enum EventView {
    Connected(ControllerView),
    Disconnected(ControllerView),
    BatteryStatus { controller: ControllerView, warning: Option<WarningView> },
    BatteryWarning { warning: WarningView },
}

pub open spec fn warning_option(warning: Option<BatteryWarning>) -> Option<WarningView> {
    match warning {
        Some(w) => Some(w@),
        None => None,
    }
}

impl View for ControllerEvent {
    type V = EventView;

    open spec fn view(&self) -> EventView {
        match self {
            ControllerEvent::Connected(c) => EventView::Connected(c@),
            ControllerEvent::Disconnected(c) => EventView::Disconnected(c@),
            ControllerEvent::BatteryStatus { controller, warning } => EventView::BatteryStatus {
                controller: controller@,
                warning: warning_option(*warning),
            },
            ControllerEvent::BatteryWarning { warning } => EventView::BatteryWarning { warning: warning@ },
        }
    }
}

/// `"Battery level is <text>"`, or `"Controller is connected"` without a level.
pub open spec fn connected_body_spec(text: Option<Seq<char>>) -> Seq<char> {
    match text {
        Some(text) => "Battery level is "@ + text,
        None => "Controller is connected"@,
    }
}

/// The disconnection sentence, with the last known level when there is one.
pub open spec fn disconnected_body_spec(text: Option<Seq<char>>) -> Seq<char> {
    match text {
        Some(text) => "Controller has been disconnected. Last known battery level was "@ + text,
        None => "Controller has been disconnected"@,
    }
}

/// The notification an event produces under a policy.
pub open spec fn event_notification(event: EventView, policy: NotificationPolicyView) -> Option<
    NotificationView,
> {
    match event {
        EventView::Connected(c) => if policy.notify_connected {
            Some(
                notification_view(
                    "Xbox Controller Connected"@,
                    connected_body_spec(level_text(c.battery)),
                    NotificationUrgency::Normal,
                ),
            )
        } else {
            None
        },
        EventView::Disconnected(c) => if policy.notify_disconnected {
            Some(
                notification_view(
                    "Xbox Controller Disconnected"@,
                    disconnected_body_spec(level_text(c.battery)),
                    NotificationUrgency::Normal,
                ),
            )
        } else {
            None
        },
        EventView::BatteryStatus { controller, warning } => battery_status_notification(
            policy,
            controller,
            warning,
        ),
        EventView::BatteryWarning { warning } => if warning.level.notify {
            Some(battery_warning_notification(warning))
        } else {
            None
        },
    }
}

/// The audio an event plays: that of the warning it carries, if any.
pub open spec fn event_audio(event: EventView) -> Option<Seq<char>> {
    match event {
        EventView::BatteryStatus { warning, .. } => match warning {
            Some(w) => w.level.audio,
            None => None,
        },
        EventView::BatteryWarning { warning } => warning.level.audio,
        _ => None,
    }
}

/// Connection and disconnection notifications appear exactly when the policy turns
/// them on, and never ask for more than normal urgency.
pub proof fn law_connectivity_notifications_follow_the_policy(c: ControllerView, policy: NotificationPolicyView)
    ensures
        (event_notification(EventView::Connected(c), policy) is Some) == policy.notify_connected,
        (event_notification(EventView::Disconnected(c), policy) is Some) == policy.notify_disconnected,
        event_notification(EventView::Connected(c), policy) matches Some(n) ==> n.urgency
            == NotificationUrgency::Normal,
        event_notification(EventView::Disconnected(c), policy) matches Some(n) ==> n.urgency
            == NotificationUrgency::Normal,
{
}

/// A warning notifies exactly when its level notifies, whatever the connection
/// settings; it asks for urgent delivery exactly when its level is urgent, and for high
/// priority otherwise. A warning folded into a battery status does the same.
pub proof fn law_warning_notifications_follow_their_level(
    c: ControllerView,
    warning: WarningView,
    policy: NotificationPolicyView,
)
    ensures
        (event_notification(EventView::BatteryWarning { warning }, policy) is Some) == warning.level.notify,
        event_notification(EventView::BatteryWarning { warning }, policy) matches Some(n) ==> n.urgency == (if warning.level.urgent {
            NotificationUrgency::Urgent
        } else {
            NotificationUrgency::High
        }),
        warning.level.notify ==> (event_notification(
            EventView::BatteryStatus { controller: c, warning: Some(warning) },
            policy,
        ) matches Some(n) && n.urgency == (if warning.level.urgent {
            NotificationUrgency::Urgent
        } else {
            NotificationUrgency::High
        })),
        warning.level.notify ==> event_notification(
            EventView::BatteryStatus { controller: c, warning: Some(warning) },
            policy,
        )->0.urgency == event_notification(EventView::BatteryWarning { warning }, policy)->0.urgency,
{
}

fn connected_body(battery: crate::controller::battery::reading::BatteryReading) -> (body: String)
    ensures
        body@ == connected_body_spec(level_text(battery)),
{
    match battery_level_text(battery) {
        Some(level) => {
            let mut body = String::from_str("Battery level is ");
            body.append(level.as_str());
            body
        },
        None => String::from_str("Controller is connected"),
    }
}

fn disconnected_body(battery: crate::controller::battery::reading::BatteryReading) -> (body: String)
    ensures
        body@ == disconnected_body_spec(level_text(battery)),
{
    match battery_level_text(battery) {
        Some(level) => {
            let mut body = String::from_str(
                "Controller has been disconnected. Last known battery level was ",
            );
            body.append(level.as_str());
            body
        },
        None => String::from_str("Controller has been disconnected"),
    }
}

impl ControllerEvent {
    pub fn notification(&self, policy: &ControllerNotificationPolicy) -> (notification: Option<
        Notification,
    >)
        ensures
            notification_option_view(notification) == event_notification(self@, policy@),
    {
        match self {
            ControllerEvent::Connected(controller) => {
                if !policy.notify_connected() {
                    return None;
                }
                let body = connected_body(controller.battery());
                Some(Notification::new("Xbox Controller Connected", body.as_str()))
            },
            ControllerEvent::Disconnected(controller) => {
                if !policy.notify_disconnected() {
                    return None;
                }
                let body = disconnected_body(controller.battery());
                Some(Notification::new("Xbox Controller Disconnected", body.as_str()))
            },
            ControllerEvent::BatteryStatus { controller, warning } => {
                let warning_ref = match warning {
                    Some(w) => Some(w),
                    None => None,
                };
                policy.notification_for_battery_status(controller, warning_ref)
            },
            ControllerEvent::BatteryWarning { warning } => {
                if warning.level().notify() {
                    Some(policy.notification_for_battery_warning(warning))
                } else {
                    None
                }
            },
        }
    }

    pub fn audio(&self) -> (audio: Option<&AudioClip>)
        ensures
            match audio {
                Some(clip) => event_audio(self@) == Some(clip@),
                None => event_audio(self@) is None,
            },
    {
        match self {
            ControllerEvent::BatteryStatus { warning, .. } => match warning {
                Some(w) => w.level().audio(),
                None => None,
            },
            ControllerEvent::BatteryWarning { warning } => warning.level().audio(),
            ControllerEvent::Connected(_) => None,
            ControllerEvent::Disconnected(_) => None,
        }
    }
}

} // verus!
