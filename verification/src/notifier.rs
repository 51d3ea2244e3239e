//! Notifications shown to the user.
use vstd::prelude::*;

verus! {

/// How insistently a notification asks to be delivered.
#[derive(Clone, Copy, Debug, PartialEq, Eq, Structural)]
pub enum NotificationUrgency {
    Normal,
    High,
    Urgent,
}

/// A notification: a title, a body and an urgency.
#[derive(Clone, Debug, PartialEq, Eq)]
pub struct Notification {
    title: String,
    body: String,
    urgency: NotificationUrgency,
}

/// The model of a notification.
pub struct NotificationView {
    pub title: Seq<char>,
    pub body: Seq<char>,
    pub urgency: NotificationUrgency,
}

impl View for Notification {
    type V = NotificationView;

    closed spec fn view(&self) -> NotificationView {
        NotificationView { title: self.title@, body: self.body@, urgency: self.urgency }
    }
}

pub open spec fn notification_view(
    title: Seq<char>,
    body: Seq<char>,
    urgency: NotificationUrgency,
) -> NotificationView {
    NotificationView { title, body, urgency }
}

pub open spec fn notification_option_view(notification: Option<Notification>) -> Option<NotificationView> {
    match notification {
        Some(notification) => Some(notification@),
        None => None,
    }
}

impl Notification {
    pub fn new(title: &str, body: &str) -> (notification: Self)
        ensures
            notification@ == notification_view(title@, body@, NotificationUrgency::Normal),
    {
        Self::with_urgency(title, body, NotificationUrgency::Normal)
    }

    pub fn with_urgency(title: &str, body: &str, urgency: NotificationUrgency) -> (notification: Self)
        ensures
            notification@ == notification_view(title@, body@, urgency),
    {
        Notification { title: String::from_str(title), body: String::from_str(body), urgency }
    }

    pub fn title(&self) -> (title: &str)
        ensures
            title@ == self@.title,
    {
        self.title.as_str()
    }

    pub fn body(&self) -> (body: &str)
        ensures
            body@ == self@.body,
    {
        self.body.as_str()
    }

    pub fn urgency(&self) -> (urgency: NotificationUrgency)
        ensures
            urgency == self@.urgency,
    {
        self.urgency
    }
}

/// Something that can deliver notifications, such as the Windows toast service.
pub trait Notifier {
    fn notify(&self, notification: &Notification) -> Result<(), String>;
}

} // verus!
