//! Desktop notifications.

use crate::capability::Capability;
use crate::error::UdaError;
use vstd::prelude::*;

verus! {

/// Urgency level for a notification, following the FreeDesktop Notifications spec.
#[derive(Debug, Clone, Copy, PartialEq, Eq, Structural)]
pub enum Urgency {
    /// Low urgency. No special display.
    Low,
    /// Normal urgency. Default behavior.
    Normal,
    /// Critical urgency. Displayed immediately, may override screen lock.
    Critical,
}

impl Default for Urgency {
    fn default() -> (urgency: Self)
        ensures
            urgency == Urgency::Normal,
    {
        Urgency::Normal
    }
}

impl Urgency {
    /// The byte that stands for the urgency in transport.
    pub open spec fn level(self) -> u8 {
        match self {
            Urgency::Low => 0,
            Urgency::Normal => 1,
            Urgency::Critical => 2,
        }
    }

    /// The byte that stands for the urgency in transport.
    pub fn value(self) -> (level: u8)
        ensures
            level == self.level(),
    {
        match self {
            Urgency::Low => 0,
            Urgency::Normal => 1,
            Urgency::Critical => 2,
        }
    }
}

/// Represents a desktop notification to be sent via the system notification service.
///
/// Maps directly to the FreeDesktop `org.freedesktop.Notifications.Notify` parameters.
#[derive(Debug, Clone, PartialEq, Eq)]
pub struct Notification {
    /// The application name (sender).
    pub app_name: String,
    /// Optional ID of a notification to replace. 0 means a new notification.
    pub replaces_id: u32,
    /// Path or URI to an icon image.
    pub app_icon: String,
    /// One-line summary / title of the notification.
    pub summary: String,
    /// Multi-line body of the notification.
    pub body: String,
    /// Action pairs (key, localized_label). Flattened for transport internally.
    pub actions: Vec<(String, String)>,
    /// Timeout in milliseconds. 0 = server default, -1 = never expire.
    pub expire_timeout: i32,
    /// Urgency level, transported as the `urgency` hint.
    pub urgency: Urgency,
}

impl Default for Notification {
    fn default() -> (n: Self)
        ensures
            n.app_name@ == "UDA"@,
            n.replaces_id == 0,
            n.app_icon@.len() == 0,
            n.summary@.len() == 0,
            n.body@.len() == 0,
            n.actions@.len() == 0,
            n.expire_timeout == 0,
            n.urgency == Urgency::Normal,
    {
        Notification {
            app_name: "UDA".to_owned(),
            replaces_id: 0,
            app_icon: String::new(),
            summary: String::new(),
            body: String::new(),
            actions: Vec::new(),
            expire_timeout: 0,
            urgency: Urgency::Normal,
        }
    }
}

/// Cross-platform notification management interface.
pub trait NotificationManager {
    /// Send a notification, waiting for the server, and return the notification
    /// ID it assigned.
    fn send(&self, notification: &Notification) -> Result<u32, UdaError>;

    /// Return the set of capabilities supported by the current backend.
    fn capabilities(&self) -> Result<Capability, UdaError>;
}

/// The bytes of the three urgencies are 0, 1 and 2, so a greater urgency is a
/// greater byte.
pub proof fn urgencies_are_numbered_in_order()
    ensures
        Urgency::Low.level() == 0,
        Urgency::Normal.level() == 1,
        Urgency::Critical.level() == 2,
{
}

} // verus!
