//! Notifications over `org.freedesktop.Notifications`.

use crate::capability::Capability;
use crate::notification::{Notification, Urgency};
use vstd::prelude::*;

verus! {

/// The `Notify` parameters of a notification.
#[derive(Debug, PartialEq, Eq)]
pub struct NotifyRequest {
    pub app_name: String,
    pub replaces_id: u32,
    pub app_icon: String,
    pub summary: String,
    pub body: String,
    /// Keys and labels in turn.
    pub actions: Vec<String>,
    /// The `urgency` hint, when one is sent.
    pub urgency: Option<u8>,
    pub expire_timeout: i32,
}

/// Keys and labels in turn, as the protocol transports action pairs.
pub open spec fn flattened(actions: Seq<(String, String)>) -> Seq<String>
    decreases actions.len(),
{
    if actions.len() == 0 {
        Seq::empty()
    } else {
        flattened(actions.drop_last()).push(actions.last().0).push(actions.last().1)
    }
}

/// Every action takes two places, its key before its label.
pub proof fn actions_are_flattened_in_pairs(actions: Seq<(String, String)>)
    ensures
        flattened(actions).len() == 2 * actions.len(),
        forall|i: int|
            0 <= i < actions.len() ==> flattened(actions)[2 * i] == (#[trigger] actions[i]).0
                && flattened(actions)[2 * i + 1] == actions[i].1,
    decreases actions.len(),
{
    if actions.len() > 0 {
        actions_are_flattened_in_pairs(actions.drop_last());
        assert forall|i: int| 0 <= i < actions.len() implies flattened(actions)[2 * i] == (
        #[trigger] actions[i]).0 && flattened(actions)[2 * i + 1] == actions[i].1 by {
            if i < actions.len() - 1 {
                assert(actions.drop_last()[i] == actions[i]);
            }
        }
    }
}

/// Flatten action pairs for transport.
pub fn flatten_actions(actions: &Vec<(String, String)>) -> (flat: Vec<String>)
    ensures
        flat@ == flattened(actions@),
{
    let mut flat: Vec<String> = Vec::new();
    let mut i: usize = 0;
    proof {
        assert(actions@.take(0) =~= Seq::empty());
    }
    while i < actions.len()
        invariant
            i <= actions.len(),
            flat@ == flattened(actions@.take(i as int)),
        decreases actions.len() - i,
    {
        flat.push(actions[i].0.clone());
        flat.push(actions[i].1.clone());
        i = i + 1;
        proof {
            assert(actions@.take(i as int).drop_last() =~= actions@.take(i as int - 1));
            assert(actions@.take(i as int).last() == actions@[i as int - 1]);
        }
    }
    proof {
        assert(actions@.take(i as int) =~= actions@);
    }
    flat
}

/// The `urgency` hint to send. Low urgency is the server's default and needs
/// none.
pub fn urgency_hint(urgency: Urgency) -> (hint: Option<u8>)
    ensures
        hint == (if urgency.level() > 0 {
            Some(urgency.level())
        } else {
            None
        }),
{
    let level: u8 = urgency.value();
    if level > 0 {
        Some(level)
    } else {
        None
    }
}

/// The `Notify` parameters of a notification.
pub fn notify_request(notification: &Notification) -> (request: NotifyRequest)
    ensures
        request.app_name == notification.app_name,
        request.replaces_id == notification.replaces_id,
        request.app_icon == notification.app_icon,
        request.summary == notification.summary,
        request.body == notification.body,
        request.actions@ == flattened(notification.actions@),
        request.urgency == (if notification.urgency == Urgency::Low {
            None
        } else {
            Some(notification.urgency.level())
        }),
        request.expire_timeout == notification.expire_timeout,
{
    NotifyRequest {
        app_name: notification.app_name.clone(),
        replaces_id: notification.replaces_id,
        app_icon: notification.app_icon.clone(),
        summary: notification.summary.clone(),
        body: notification.body.clone(),
        actions: flatten_actions(&notification.actions),
        urgency: urgency_hint(notification.urgency),
        expire_timeout: notification.expire_timeout,
    }
}

/// What the notification backend can do.
pub fn notification_capabilities() -> (capabilities: Capability)
    ensures
        capabilities@ == Capability::SEND_NOTIFICATION,
{
    Capability::of(Capability::SEND_NOTIFICATION)
}

/// A notification is sent as it is: a normal one with the hint 1, a critical one
/// with 2, and one of low urgency without a hint; the key and the label of its
/// action `i` stand in places `2 * i` and `2 * i + 1`.
pub proof fn a_notification_is_sent_as_it_is(
    notification: Notification,
    request: NotifyRequest,
    i: int,
)
    requires
        call_ensures(notify_request, (&notification,), request),
    ensures
        request.app_name == notification.app_name,
        request.replaces_id == notification.replaces_id,
        request.app_icon == notification.app_icon,
        request.summary == notification.summary,
        request.body == notification.body,
        request.expire_timeout == notification.expire_timeout,
        request.urgency == (match notification.urgency {
            Urgency::Low => None,
            Urgency::Normal => Some(1u8),
            Urgency::Critical => Some(2u8),
        }),
        request.actions@.len() == 2 * notification.actions@.len(),
        0 <= i < notification.actions@.len() ==> request.actions@[2 * i]
            == notification.actions@[i].0 && request.actions@[2 * i + 1]
            == notification.actions@[i].1,
{
    actions_are_flattened_in_pairs(notification.actions@);
    if 0 <= i < notification.actions@.len() {
        let pair = notification.actions@[i];
    }
}

} // verus!
