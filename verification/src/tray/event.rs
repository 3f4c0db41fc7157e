//! Tray interactions and the callbacks they lead to.

use vstd::prelude::*;

verus! {

/// An interaction reported by the platform tray.
#[derive(Debug, Clone, Copy, PartialEq, Eq, Structural)]
pub enum TrayEvent {
    /// Primary (left) click.
    Click,
    /// Double click. Without a native event (Linux SNI) this is synthesised from
    /// two [`TrayEvent::Click`]s inside a short window.
    DoubleClick,
}

/// A host callback, named by the slot of an [`ActionStore`] that holds it.
///
/// A row carries the name rather than the code, so a row stays plain data that
/// can be copied into every layout export. Every copy names the same slot, so a
/// callback that is replaced is replaced for every holder.
#[derive(Debug, Clone, Copy, PartialEq, Eq, Hash, Structural)]
pub struct TrayAction {
    slot: usize,
}

/// The call a host has to make: which callback, and the event to hand it.
#[derive(Debug, Clone, Copy, PartialEq, Eq, Structural)]
pub struct TrayCall {
    /// The number under which the host keeps the callback.
    pub callback: u64,
    /// The event to report.
    pub event: TrayEvent,
}

/// The callbacks that actions name: in each slot the number under which the host
/// keeps the callback. A slot lives as long as its store.
#[derive(Debug)]
pub struct ActionStore {
    callbacks: Vec<u64>,
}

/// The callback in every slot.
pub type ActionsView = Seq<u64>;

impl View for ActionStore {
    type V = ActionsView;

    closed spec fn view(&self) -> ActionsView {
        self.callbacks@
    }
}

/// Whether `action` names a slot.
pub open spec fn knows(actions: ActionsView, action: TrayAction) -> bool {
    action@ < actions.len()
}

/// The call that reports an event to its handler.
pub open spec fn call_of(
    actions: ActionsView,
    handler: Option<TrayAction>,
    event: TrayEvent,
) -> Option<TrayCall> {
    match handler {
        Some(action) => if knows(actions, action) {
            Some(TrayCall { callback: actions[action@ as int], event })
        } else {
            None
        },
        None => None,
    }
}

/// Whether giving `action` to a row that carries `carried` replaces the callback
/// in the slot of `carried`.
pub open spec fn swaps(
    actions: ActionsView,
    carried: Option<TrayAction>,
    action: Option<TrayAction>,
) -> bool {
    &&& carried matches Some(a) && knows(actions, a)
    &&& action matches Some(b) && knows(actions, b)
}

/// The slots after `action` was given to a row that carries `carried`.
pub open spec fn swapped(
    actions: ActionsView,
    carried: Option<TrayAction>,
    action: Option<TrayAction>,
) -> ActionsView {
    if swaps(actions, carried, action) {
        actions.update(carried->0@ as int, actions[action->0@ as int])
    } else {
        actions
    }
}

impl ActionStore {
    /// A store without slots.
    pub fn new() -> (actions: Self)
        ensures
            actions@ == ActionsView::empty(),
    {
        ActionStore { callbacks: Vec::new() }
    }

    /// Whether `action` names a slot of this store.
    pub fn knows(&self, action: TrayAction) -> (yes: bool)
        ensures
            yes == knows(self@, action),
    {
        action.slot < self.callbacks.len()
    }

    /// The call that reports `event` to `handler`, if there is one.
    pub fn call(&self, handler: Option<TrayAction>, event: TrayEvent) -> (call: Option<TrayCall>)
        ensures
            call == call_of(self@, handler, event),
    {
        match handler {
            Some(action) => if self.knows(action) {
                Some(action.invoke(self, &event))
            } else {
                None
            },
            None => None,
        }
    }

    /// Replace the callback in the slot of `carried` by that of `action`, where
    /// both name one. Returns whether it was replaced.
    pub fn swap(&mut self, carried: Option<TrayAction>, action: Option<TrayAction>) -> (done: bool)
        ensures
            done == swaps(old(self)@, carried, action),
            final(self)@ == swapped(old(self)@, carried, action),
    {
        match (carried, action) {
            (Some(carried), Some(action)) => {
                if !self.knows(carried) || !self.knows(action) {
                    return false;
                }
                let callback: u64 = self.callbacks[action.slot];
                self.callbacks.set(carried.slot, callback);
                true
            },
            _ => false,
        }
    }
}

impl TrayAction {
    /// The slot that holds the callback.
    pub closed spec fn view(self) -> usize {
        self.slot
    }

    /// Name the callback the host keeps under `callback`, in a slot of its own.
    pub fn new(actions: &mut ActionStore, callback: u64) -> (action: Self)
        ensures
            action@ == old(actions)@.len(),
            final(actions)@ == old(actions)@.push(callback),
            knows(final(actions)@, action),
    {
        let action = TrayAction { slot: actions.callbacks.len() };
        actions.callbacks.push(callback);
        action
    }

    /// The call that reports `event` to the callback, as it is now.
    pub fn invoke(&self, actions: &ActionStore, event: &TrayEvent) -> (call: TrayCall)
        requires
            knows(actions@, *self),
        ensures
            call == (TrayCall { callback: actions@[self@ as int], event: *event }),
    {
        TrayCall { callback: actions.callbacks[self.slot], event: *event }
    }
}

/// A callback that is replaced is replaced for every holder of the same slot, and
/// for no holder of another one.
pub proof fn a_replaced_callback_reaches_every_holder(
    actions: ActionsView,
    carried: TrayAction,
    action: TrayAction,
    holder: TrayAction,
    event: TrayEvent,
)
    requires
        knows(actions, carried),
        knows(actions, action),
    ensures
        ({
            let after = swapped(actions, Some(carried), Some(action));
            &&& holder@ == carried@ ==> call_of(after, Some(holder), event) == call_of(
                actions,
                Some(action),
                event,
            )
            &&& holder@ != carried@ ==> call_of(after, Some(holder), event) == call_of(
                actions,
                Some(holder),
                event,
            )
            &&& knows(actions, holder) <==> knows(after, holder)
        }),
{
}

/// A new action reports every event to the callback it was made for, and the
/// actions made before go on reporting to theirs. Without a handler, or with one
/// that names no slot, there is no call.
pub proof fn an_action_reports_to_its_own_callback(
    actions: ActionsView,
    callback: u64,
    action: TrayAction,
    holder: TrayAction,
    event: TrayEvent,
)
    requires
        action@ == actions.len(),
    ensures
        call_of(actions.push(callback), Some(action), event) == Some(TrayCall { callback, event }),
        call_of(actions, Some(action), event) is None,
        call_of(actions, None, event) is None,
        holder@ < actions.len() ==> call_of(actions.push(callback), Some(holder), event)
            == call_of(actions, Some(holder), event) && call_of(actions, Some(holder), event)
            is Some,
{
}

/// A callback is replaced only by another one: giving none, or an action that
/// names no slot, replaces nothing.
pub proof fn nothing_replaces_no_callback(
    actions: ActionsView,
    carried: Option<TrayAction>,
    action: Option<TrayAction>,
    holder: TrayAction,
    event: TrayEvent,
)
    requires
        carried is None || action is None || carried->0@ >= actions.len() || action->0@
            >= actions.len(),
    ensures
        !swaps(actions, carried, action),
        call_of(swapped(actions, carried, action), Some(holder), event) == call_of(
            actions,
            Some(holder),
            event,
        ),
{
}

/// A callback that was named is called with every event that its action reports,
/// and the callbacks named before it are left alone.
pub proof fn a_named_callback_is_called(
    actions: &mut ActionStore,
    callback: u64,
    action: TrayAction,
    holder: TrayAction,
    event: TrayEvent,
    call: Option<TrayCall>,
)
    requires
        call_ensures(TrayAction::new, (actions, callback), action),
        call_of(final(actions)@, Some(action), event) == call,
    ensures
        call == Some(TrayCall { callback, event }),
        call_of(old(actions)@, Some(action), event) is None,
        call_of(old(actions)@, Some(holder), event) is Some ==> call_of(
            final(actions)@,
            Some(holder),
            event,
        ) == call_of(old(actions)@, Some(holder), event),
{
}

/// A handler is called under the number its slot holds, with the event that was
/// reported; without a handler, or without its slot, nothing is called.
pub proof fn a_handler_is_called_with_its_event(
    actions: ActionStore,
    handler: Option<TrayAction>,
    event: TrayEvent,
    call: Option<TrayCall>,
)
    requires
        call_ensures(ActionStore::call, (&actions, handler, event), call),
    ensures
        handler is None ==> call is None,
        handler matches Some(action) ==> (call is Some <==> action@ < actions@.len()),
        call matches Some(made) ==> made.event == event && handler is Some && made.callback
            == actions@[handler->0@ as int],
{
}

/// Replacing a callback puts the new number into the slot of the old action, and
/// changes no other slot.
pub proof fn a_replaced_slot_holds_the_new_number(
    actions: &mut ActionStore,
    carried: Option<TrayAction>,
    action: Option<TrayAction>,
    done: bool,
    i: int,
)
    requires
        call_ensures(ActionStore::swap, (actions, carried, action), done),
    ensures
        done <==> carried is Some && action is Some && carried->0@ < old(actions)@.len()
            && action->0@ < old(actions)@.len(),
        final(actions)@.len() == old(actions)@.len(),
        done ==> final(actions)@[carried->0@ as int] == old(actions)@[action->0@ as int],
        0 <= i < old(actions)@.len() && !(done && i == carried->0@) ==> final(actions)@[i]
            == old(actions)@[i],
{
}

} // verus!
