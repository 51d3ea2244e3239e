use vstd::prelude::*;

use crate::controller::battery::battery_warning_level::{LevelView, default_levels_view};
use crate::controller::battery::battery_warning_policy::BatteryWarningPolicy;
use crate::controller::event::controller_notification_policy::{
    ControllerNotificationPolicy, NotificationPolicyView,
};

verus! {

/// How often the service polls, how long it waits at most between checks, and the
/// policies it applies. Times are in nanoseconds.
#[derive(Clone, Debug)]
pub struct ControllerServiceConfig {
    poll_interval: u64,
    control_wait_slice: u64,
    warning_policy: BatteryWarningPolicy,
    notification_policy: ControllerNotificationPolicy,
}

/// The model of a service configuration.
pub struct ServiceConfigView {
    pub poll_interval: u64,
    pub control_wait_slice: u64,
    pub warning_policy: Seq<LevelView>,
    pub notification_policy: NotificationPolicyView,
}

impl View for ControllerServiceConfig {
    type V = ServiceConfigView;

    closed spec fn view(&self) -> ServiceConfigView {
        ServiceConfigView {
            poll_interval: self.poll_interval,
            control_wait_slice: self.control_wait_slice,
            warning_policy: self.warning_policy@,
            notification_policy: self.notification_policy@,
        }
    }
}

/// The regular poll interval of the default configuration: one minute, in nanoseconds.
pub const DEFAULT_POLL_INTERVAL: u64 = 60_000_000_000;

/// The longest single wait of the default configuration, so that stop requests and
/// configuration changes are noticed promptly: a quarter of a second, in nanoseconds.
pub const DEFAULT_CONTROL_WAIT_SLICE: u64 = 250_000_000;

impl ControllerServiceConfig {
    pub fn new(
        poll_interval: u64,
        control_wait_slice: u64,
        warning_policy: BatteryWarningPolicy,
        notification_policy: ControllerNotificationPolicy,
    ) -> (config: Self)
        ensures
            config@ == (ServiceConfigView {
                poll_interval,
                control_wait_slice,
                warning_policy: warning_policy@,
                notification_policy: notification_policy@,
            }),
    {
        ControllerServiceConfig { poll_interval, control_wait_slice, warning_policy, notification_policy }
    }

    pub fn poll_interval(&self) -> (interval: u64)
        ensures
            interval == self@.poll_interval,
    {
        self.poll_interval
    }

    pub fn control_wait_slice(&self) -> (slice: u64)
        ensures
            slice == self@.control_wait_slice,
    {
        self.control_wait_slice
    }

    pub fn warning_policy(&self) -> (policy: &BatteryWarningPolicy)
        ensures
            policy@ == self@.warning_policy,
    {
        &self.warning_policy
    }

    pub fn notification_policy(&self) -> (policy: &ControllerNotificationPolicy)
        ensures
            policy@ == self@.notification_policy,
    {
        &self.notification_policy
    }
}

impl Default for ControllerServiceConfig {
    fn default() -> (config: Self)
        ensures
            config@ == (ServiceConfigView {
                poll_interval: DEFAULT_POLL_INTERVAL,
                control_wait_slice: DEFAULT_CONTROL_WAIT_SLICE,
                warning_policy: default_levels_view(),
                notification_policy: NotificationPolicyView { notify_connected: true, notify_disconnected: true },
            }),
    {
        Self::new(
            DEFAULT_POLL_INTERVAL,
            DEFAULT_CONTROL_WAIT_SLICE,
            BatteryWarningPolicy::default(),
            ControllerNotificationPolicy::default(),
        )
    }
}

} // verus!
