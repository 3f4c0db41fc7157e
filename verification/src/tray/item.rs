//! One row of a tray menu.

use crate::text::{same, show};
use crate::tray::event::{swaps, ActionsView, TrayAction};
use vstd::prelude::*;

verus! {

/// Stable identifier of a row inside a menu.
///
/// Ids are assigned by the menu and stay valid until the row is removed, which
/// is what lets a host keep a handle across unrelated inserts.
#[derive(Debug, Clone, Copy, PartialEq, Eq, PartialOrd, Ord, Hash, Structural)]
pub struct MenuItemId {
    raw: u64,
}

impl MenuItemId {
    /// The raw numeric value.
    pub closed spec fn view(self) -> u64 {
        self.raw
    }

    /// The id with the given raw value.
    pub fn from_raw(raw: u64) -> (id: Self)
        ensures
            id@ == raw,
    {
        MenuItemId { raw }
    }

    /// The raw numeric value.
    pub fn into_raw(self) -> (raw: u64)
        ensures
            raw == self@,
    {
        self.raw
    }

    /// The id as shown in a log.
    pub fn text(&self) -> (text: String)
        ensures
            text@ == "tray-item-"@ + crate::text::decimal(self@ as nat),
    {
        "tray-item-".to_owned().concat(show(self.raw).as_str())
    }

    /// The id with the given raw value.
    pub closed spec fn numbered(raw: u64) -> Self {
        MenuItemId { raw }
    }

    /// An id is its raw value.
    pub broadcast proof fn lemma_numbered(raw: u64)
        ensures
            (#[trigger] Self::numbered(raw))@ == raw,
    {
    }

    /// Two ids with the same raw value are the same id.
    pub broadcast proof fn lemma_same_raw(a: Self, b: Self)
        ensures
            #![trigger a@, b@]
            a@ == b@ ==> a == b,
    {
    }
}

/// Names a menu kept in a [`crate::tray::store::MenuStore`].
///
/// Two equal references name the very same menu, so a change made through one is
/// seen through the other.
#[derive(Debug, Clone, Copy, PartialEq, Eq, Hash, Structural)]
pub struct MenuRef {
    index: usize,
}

impl MenuRef {
    /// The place of the menu in its store.
    pub closed spec fn view(self) -> usize {
        self.index
    }

    /// The reference to the menu kept at `index`.
    pub(crate) fn to(index: usize) -> (menu: Self)
        ensures
            menu@ == index,
    {
        MenuRef { index }
    }

    /// The place of the menu in its store.
    pub(crate) fn index(self) -> (index: usize)
        ensures
            index == self@,
    {
        self.index
    }
}

/// Interaction state shared by every activatable menu variant.
#[derive(Debug, Clone, Copy, PartialEq, Eq, Structural)]
pub struct MenuItemState {
    /// Whether the row accepts activation. `false` renders it greyed out.
    pub enabled: bool,
    /// Checkbox value. Ignored by non-checkbox variants.
    pub checked: bool,
}

impl Default for MenuItemState {
    fn default() -> (state: Self)
        ensures
            state == (MenuItemState { enabled: false, checked: false }),
    {
        MenuItemState { enabled: false, checked: false }
    }
}

impl MenuItemState {
    /// A plain, enabled, unchecked row.
    pub fn enabled() -> (state: Self)
        ensures
            state == (MenuItemState { enabled: true, checked: false }),
    {
        MenuItemState { enabled: true, checked: false }
    }

    /// Whether this state renders as greyed out.
    pub fn is_disabled(&self) -> (yes: bool)
        ensures
            yes == !self.enabled,
    {
        !self.enabled
    }

    /// A copy with `enabled` replaced.
    pub fn with_enabled(self, enabled: bool) -> (state: Self)
        ensures
            state == (MenuItemState { enabled, checked: self.checked }),
    {
        MenuItemState { enabled, checked: self.checked }
    }

    /// A copy with `checked` replaced.
    pub fn with_checked(self, checked: bool) -> (state: Self)
        ensures
            state == (MenuItemState { enabled: self.enabled, checked }),
    {
        MenuItemState { enabled: self.enabled, checked }
    }
}

/// A single row of a tray menu.
///
/// Constructors stay infallible so that building a row reads naturally; the menu
/// refuses a blank label when the row is inserted.
#[derive(Debug)]
pub enum MenuItem {
    /// Plain text row; optional callback fires on activation.
    Text {
        /// Displayed label.
        label: String,
        /// Interaction state.
        state: MenuItemState,
        /// Callback invoked when the row is activated.
        action: Option<TrayAction>,
    },
    /// Checkbox row; `state.checked` carries the current value.
    Checkbox {
        /// Displayed label.
        label: String,
        /// Interaction state.
        state: MenuItemState,
        /// Callback invoked when the row is toggled.
        action: Option<TrayAction>,
    },
    /// Visual separator. Never activatable and never labelled.
    Separator,
    /// Nested submenu. `children` names a menu that the host can keep changing
    /// after the row was pushed.
    Submenu {
        /// Displayed label.
        label: String,
        /// Interaction state.
        state: MenuItemState,
        /// The nested rows.
        children: MenuRef,
    },
}

/// What a [`MenuItem`] says.
#[verifier::ext_equal]
pub enum ItemView {
    Text { label: Seq<char>, state: MenuItemState, action: Option<TrayAction> },
    Checkbox { label: Seq<char>, state: MenuItemState, action: Option<TrayAction> },
    Separator,
    Submenu { label: Seq<char>, state: MenuItemState, children: MenuRef },
}

impl View for MenuItem {
    type V = ItemView;

    open spec fn view(&self) -> ItemView {
        match *self {
            MenuItem::Text { label, state, action } => ItemView::Text {
                label: label@,
                state,
                action,
            },
            MenuItem::Checkbox { label, state, action } => ItemView::Checkbox {
                label: label@,
                state,
                action,
            },
            MenuItem::Separator => ItemView::Separator,
            MenuItem::Submenu { label, state, children } => ItemView::Submenu {
                label: label@,
                state,
                children,
            },
        }
    }
}

impl ItemView {
    /// The label, if this variant shows one.
    pub open spec fn label(self) -> Option<Seq<char>> {
        match self {
            ItemView::Text { label, .. } => Some(label),
            ItemView::Checkbox { label, .. } => Some(label),
            ItemView::Submenu { label, .. } => Some(label),
            ItemView::Separator => None,
        }
    }

    /// The interaction state; a separator is never interactive.
    pub open spec fn state(self) -> MenuItemState {
        match self {
            ItemView::Text { state, .. } => state,
            ItemView::Checkbox { state, .. } => state,
            ItemView::Submenu { state, .. } => state,
            ItemView::Separator => MenuItemState { enabled: false, checked: false },
        }
    }

    /// The callback, on the variants that can carry one.
    pub open spec fn action(self) -> Option<TrayAction> {
        match self {
            ItemView::Text { action, .. } => action,
            ItemView::Checkbox { action, .. } => action,
            _ => None,
        }
    }

    /// The nested menu of a submenu row.
    pub open spec fn children(self) -> Option<MenuRef> {
        match self {
            ItemView::Submenu { children, .. } => Some(children),
            _ => None,
        }
    }

    /// The row with another label; a separator has none to replace.
    pub open spec fn with_label(self, label: Seq<char>) -> ItemView {
        match self {
            ItemView::Text { state, action, .. } => ItemView::Text { label, state, action },
            ItemView::Checkbox { state, action, .. } => ItemView::Checkbox { label, state, action },
            ItemView::Submenu { state, children, .. } => ItemView::Submenu {
                label,
                state,
                children,
            },
            ItemView::Separator => ItemView::Separator,
        }
    }

    /// The row in another state; a separator has none to replace.
    pub open spec fn with_state(self, state: MenuItemState) -> ItemView {
        match self {
            ItemView::Text { label, action, .. } => ItemView::Text { label, state, action },
            ItemView::Checkbox { label, action, .. } => ItemView::Checkbox { label, state, action },
            ItemView::Submenu { label, children, .. } => ItemView::Submenu {
                label,
                state,
                children,
            },
            ItemView::Separator => ItemView::Separator,
        }
    }

    /// The row with another callback; separators and submenus carry none.
    pub open spec fn with_action(self, action: Option<TrayAction>) -> ItemView {
        match self {
            ItemView::Text { label, state, .. } => ItemView::Text { label, state, action },
            ItemView::Checkbox { label, state, .. } => ItemView::Checkbox { label, state, action },
            other => other,
        }
    }

    /// The row once it was given another callback. One that already carries a
    /// callback keeps its slot, in which the callback is replaced.
    pub open spec fn acting(self, actions: ActionsView, action: Option<TrayAction>) -> ItemView {
        if swaps(actions, self.action(), action) {
            self
        } else {
            self.with_action(action)
        }
    }

    /// The row with its checkbox value inverted; other variants have none.
    pub open spec fn toggled(self) -> ItemView {
        match self {
            ItemView::Checkbox { label, state, action } => ItemView::Checkbox {
                label,
                state: MenuItemState { enabled: state.enabled, checked: !state.checked },
                action,
            },
            other => other,
        }
    }

    /// Whether two rows look alike: the same variant, label and state. Callbacks
    /// and the contents of a submenu do not count.
    pub open spec fn looks_like(self, other: ItemView) -> bool {
        match (self, other) {
            (ItemView::Text { .. }, ItemView::Text { .. }) => self.label() == other.label()
                && self.state() == other.state(),
            (ItemView::Checkbox { .. }, ItemView::Checkbox { .. }) => self.label() == other.label()
                && self.state() == other.state(),
            (ItemView::Submenu { .. }, ItemView::Submenu { .. }) => self.label() == other.label()
                && self.state() == other.state(),
            (ItemView::Separator, ItemView::Separator) => true,
            _ => false,
        }
    }
}

impl Clone for MenuItem {
    fn clone(&self) -> (copy: Self)
        ensures
            copy == *self,
    {
        match self {
            MenuItem::Text { label, state, action } => MenuItem::Text {
                label: label.clone(),
                state: *state,
                action: *action,
            },
            MenuItem::Checkbox { label, state, action } => MenuItem::Checkbox {
                label: label.clone(),
                state: *state,
                action: *action,
            },
            MenuItem::Separator => MenuItem::Separator,
            MenuItem::Submenu { label, state, children } => MenuItem::Submenu {
                label: label.clone(),
                state: *state,
                children: *children,
            },
        }
    }
}

impl PartialEq for MenuItem {
    fn eq(&self, other: &Self) -> (yes: bool) {
        match (self, other) {
            (
                MenuItem::Text { label: left_label, state: left_state, .. },
                MenuItem::Text { label: right_label, state: right_state, .. },
            ) => same(left_label.as_str(), right_label.as_str()) && *left_state == *right_state,
            (
                MenuItem::Checkbox { label: left_label, state: left_state, .. },
                MenuItem::Checkbox { label: right_label, state: right_state, .. },
            ) => same(left_label.as_str(), right_label.as_str()) && *left_state == *right_state,
            (
                MenuItem::Submenu { label: left_label, state: left_state, .. },
                MenuItem::Submenu { label: right_label, state: right_state, .. },
            ) => same(left_label.as_str(), right_label.as_str()) && *left_state == *right_state,
            (MenuItem::Separator, MenuItem::Separator) => true,
            _ => false,
        }
    }
}

impl vstd::std_specs::cmp::PartialEqSpecImpl for MenuItem {
    open spec fn obeys_eq_spec() -> bool {
        true
    }

    open spec fn eq_spec(&self, other: &Self) -> bool {
        self@.looks_like(other@)
    }
}

impl Eq for MenuItem {

}

impl MenuItem {
    /// A separator row.
    pub fn separator() -> (item: Self)
        ensures
            item@ == ItemView::Separator,
    {
        MenuItem::Separator
    }

    /// An enabled text row without a callback.
    pub fn text(label: &str) -> (item: Self)
        ensures
            item@ == (ItemView::Text {
                label: label@,
                state: MenuItemState { enabled: true, checked: false },
                action: None,
            }),
    {
        MenuItem::Text { label: label.to_owned(), state: MenuItemState::enabled(), action: None }
    }

    /// An enabled text row with a callback.
    pub fn text_with_action(label: &str, action: TrayAction) -> (item: Self)
        ensures
            item@ == (ItemView::Text {
                label: label@,
                state: MenuItemState { enabled: true, checked: false },
                action: Some(action),
            }),
    {
        MenuItem::Text {
            label: label.to_owned(),
            state: MenuItemState::enabled(),
            action: Some(action),
        }
    }

    /// A disabled text row.
    pub fn text_disabled(label: &str) -> (item: Self)
        ensures
            item@ == (ItemView::Text {
                label: label@,
                state: MenuItemState { enabled: false, checked: false },
                action: None,
            }),
    {
        MenuItem::Text {
            label: label.to_owned(),
            state: MenuItemState::default().with_enabled(false),
            action: None,
        }
    }

    /// An enabled checkbox that starts unchecked.
    pub fn checkbox(label: &str) -> (item: Self)
        ensures
            item@ == (ItemView::Checkbox {
                label: label@,
                state: MenuItemState { enabled: true, checked: false },
                action: None,
            }),
    {
        MenuItem::Checkbox {
            label: label.to_owned(),
            state: MenuItemState::enabled(),
            action: None,
        }
    }

    /// An enabled checkbox that starts checked.
    pub fn checkbox_checked(label: &str) -> (item: Self)
        ensures
            item@ == (ItemView::Checkbox {
                label: label@,
                state: MenuItemState { enabled: true, checked: true },
                action: None,
            }),
    {
        MenuItem::Checkbox {
            label: label.to_owned(),
            state: MenuItemState::enabled().with_checked(true),
            action: None,
        }
    }

    /// A submenu showing the rows of `children`.
    pub fn submenu(label: &str, children: MenuRef) -> (item: Self)
        ensures
            item@ == (ItemView::Submenu {
                label: label@,
                state: MenuItemState { enabled: true, checked: false },
                children,
            }),
    {
        MenuItem::Submenu {
            label: label.to_owned(),
            state: MenuItemState::enabled(),
            children,
        }
    }

    /// The label, if this variant shows one; separators return `None`.
    pub fn label(&self) -> (label: Option<&str>)
        ensures
            label is Some <==> self@.label() is Some,
            label matches Some(text) ==> self@.label() == Some(text@),
    {
        match self {
            MenuItem::Text { label, .. } => Some(label.as_str()),
            MenuItem::Checkbox { label, .. } => Some(label.as_str()),
            MenuItem::Submenu { label, .. } => Some(label.as_str()),
            MenuItem::Separator => None,
        }
    }

    /// The interaction state; a separator is never interactive.
    pub fn state(&self) -> (state: MenuItemState)
        ensures
            state == self@.state(),
    {
        match self {
            MenuItem::Text { state, .. } => *state,
            MenuItem::Checkbox { state, .. } => *state,
            MenuItem::Submenu { state, .. } => *state,
            MenuItem::Separator => MenuItemState { enabled: false, checked: false },
        }
    }

    /// Whether the row is disabled (or is a separator).
    pub fn is_disabled(&self) -> (yes: bool)
        ensures
            yes == !self@.state().enabled,
    {
        !self.state().enabled
    }

    /// Whether this row is a checkbox.
    pub fn is_checkbox(&self) -> (yes: bool)
        ensures
            yes == self@ is Checkbox,
    {
        match self {
            MenuItem::Checkbox { .. } => true,
            _ => false,
        }
    }

    /// Whether this row is a separator.
    pub fn is_separator(&self) -> (yes: bool)
        ensures
            yes == self@ is Separator,
    {
        match self {
            MenuItem::Separator => true,
            _ => false,
        }
    }

    /// Whether this row is a submenu.
    pub fn is_submenu(&self) -> (yes: bool)
        ensures
            yes == self@ is Submenu,
    {
        match self {
            MenuItem::Submenu { .. } => true,
            _ => false,
        }
    }

    /// The row's callback, if it has one. `Submenu` and `Separator` never carry
    /// a callback.
    pub fn action(&self) -> (action: Option<&TrayAction>)
        ensures
            action is Some <==> self@.action() is Some,
            action matches Some(callback) ==> self@.action() == Some(*callback),
    {
        match self {
            MenuItem::Text { action, .. } => action.as_ref(),
            MenuItem::Checkbox { action, .. } => action.as_ref(),
            _ => None,
        }
    }

    /// A copy with the label replaced; separators are unchanged.
    pub fn with_label(self, label: &str) -> (item: Self)
        ensures
            item@ == self@.with_label(label@),
    {
        match self {
            MenuItem::Text { state, action, .. } => MenuItem::Text {
                label: label.to_owned(),
                state,
                action,
            },
            MenuItem::Checkbox { state, action, .. } => MenuItem::Checkbox {
                label: label.to_owned(),
                state,
                action,
            },
            MenuItem::Submenu { state, children, .. } => MenuItem::Submenu {
                label: label.to_owned(),
                state,
                children,
            },
            MenuItem::Separator => MenuItem::Separator,
        }
    }

    /// A copy with the interaction state replaced; separators are unchanged.
    pub fn with_state(self, state: MenuItemState) -> (item: Self)
        ensures
            item@ == self@.with_state(state),
    {
        match self {
            MenuItem::Text { label, action, .. } => MenuItem::Text { label, state, action },
            MenuItem::Checkbox { label, action, .. } => MenuItem::Checkbox { label, state, action },
            MenuItem::Submenu { label, children, .. } => MenuItem::Submenu {
                label,
                state,
                children,
            },
            MenuItem::Separator => MenuItem::Separator,
        }
    }

    /// A copy with the callback replaced; separators and submenus are unchanged.
    pub fn with_action(self, action: Option<TrayAction>) -> (item: Self)
        ensures
            item@ == self@.with_action(action),
    {
        match self {
            MenuItem::Text { label, state, .. } => MenuItem::Text { label, state, action },
            MenuItem::Checkbox { label, state, .. } => MenuItem::Checkbox { label, state, action },
            other => other,
        }
    }

    /// A copy with the callback cleared; separators and submenus are unchanged.
    pub fn without_action(self) -> (item: Self)
        ensures
            item@ == self@.with_action(None),
    {
        self.with_action(None)
    }

    /// A copy with the checkbox value inverted; other variants are unchanged.
    pub fn toggled(self) -> (item: Self)
        ensures
            item@ == self@.toggled(),
    {
        match self {
            MenuItem::Checkbox { label, state, action } => MenuItem::Checkbox {
                label,
                state: state.with_checked(!state.checked),
                action,
            },
            other => other,
        }
    }
}

/// Inverting a checkbox twice gives the row back.
pub proof fn toggling_twice_restores(item: ItemView)
    ensures
        item.toggled().toggled() == item,
{
}

/// Looking alike is an equivalence, and neither the callback nor the contents of
/// a submenu tell two rows apart.
pub proof fn looking_alike_ignores_callbacks(a: ItemView, b: ItemView, c: ItemView)
    ensures
        a.looks_like(a),
        a.looks_like(b) ==> b.looks_like(a),
        a.looks_like(b) && b.looks_like(c) ==> a.looks_like(c),
        forall|action: Option<TrayAction>| a.looks_like(#[trigger] a.with_action(action)),
{
}

// ---------------------------------------------------------------------------
// What a row shows and what a change keeps
// ---------------------------------------------------------------------------
/// Whether two rows are of the same kind.
pub open spec fn same_kind(a: ItemView, b: ItemView) -> bool {
    &&& a is Text <==> b is Text
    &&& a is Checkbox <==> b is Checkbox
    &&& a is Separator <==> b is Separator
    &&& a is Submenu <==> b is Submenu
}

/// A row shows the label and the state it was made with, calls the callback it
/// was given if it is a text or a checkbox, and opens the menu it was given if it
/// is a submenu. A separator shows nothing, is disabled and calls nothing.
pub proof fn a_row_shows_what_it_was_made_of(
    label: Seq<char>,
    state: MenuItemState,
    action: Option<TrayAction>,
    children: MenuRef,
)
    ensures
        ({
            let text = ItemView::Text { label, state, action };
            let checkbox = ItemView::Checkbox { label, state, action };
            let submenu = ItemView::Submenu { label, state, children };
            let separator = ItemView::Separator;
            &&& text.label() == Some(label) && text.state() == state && text.action() == action
                && text.children() is None
            &&& checkbox.label() == Some(label) && checkbox.state() == state && checkbox.action()
                == action && checkbox.children() is None
            &&& submenu.label() == Some(label) && submenu.state() == state && submenu.action() is None
                && submenu.children() == Some(children)
            &&& separator.label() is None && !separator.state().enabled
                && !separator.state().checked && separator.action() is None
                && separator.children() is None
        }),
{
}

/// A row is what a host can see of it: two rows of one kind with the same label,
/// state, callback and nested menu are the same row.
pub proof fn a_row_is_what_it_shows(a: ItemView, b: ItemView)
    requires
        same_kind(a, b),
        a.label() == b.label(),
        a.state() == b.state(),
        a.action() == b.action(),
        a.children() == b.children(),
    ensures
        a == b,
{
}

/// A new label replaces the old one on every row that shows one, and nothing else
/// changes.
pub proof fn relabelling_changes_the_label_alone(item: ItemView, label: Seq<char>)
    ensures
        ({
            let after = item.with_label(label);
            &&& same_kind(after, item)
            &&& after.label() == (if item is Separator {
                None
            } else {
                Some(label)
            })
            &&& after.state() == item.state()
            &&& after.action() == item.action()
            &&& after.children() == item.children()
        }),
{
}

/// A new state replaces the old one on every row but a separator, and nothing else
/// changes.
pub proof fn a_new_state_changes_the_state_alone(item: ItemView, state: MenuItemState)
    ensures
        ({
            let after = item.with_state(state);
            &&& same_kind(after, item)
            &&& after.state() == (if item is Separator {
                item.state()
            } else {
                state
            })
            &&& after.label() == item.label()
            &&& after.action() == item.action()
            &&& after.children() == item.children()
        }),
{
}

/// A new callback replaces the old one on a text and on a checkbox, and nothing
/// else changes.
pub proof fn a_new_callback_changes_the_callback_alone(item: ItemView, action: Option<TrayAction>)
    ensures
        ({
            let after = item.with_action(action);
            &&& same_kind(after, item)
            &&& after.action() == (if item is Text || item is Checkbox {
                action
            } else {
                None
            })
            &&& after.label() == item.label()
            &&& after.state() == item.state()
            &&& after.children() == item.children()
        }),
{
}

/// Toggling inverts the value of a checkbox and nothing else; other rows stay as
/// they are.
pub proof fn toggling_inverts_the_value_alone(item: ItemView)
    ensures
        ({
            let after = item.toggled();
            &&& same_kind(after, item)
            &&& item is Checkbox ==> after.state().checked == !item.state().checked
            &&& !(item is Checkbox) ==> after == item
            &&& after.state().enabled == item.state().enabled
            &&& after.label() == item.label()
            &&& after.action() == item.action()
            &&& after.children() == item.children()
        }),
{
}

/// Two rows look alike exactly when they are of one kind and show the same label
/// in the same state.
pub proof fn rows_that_look_alike_show_the_same(a: ItemView, b: ItemView)
    ensures
        a.looks_like(b) <==> same_kind(a, b) && a.label() == b.label() && a.state() == b.state(),
{
}

/// A row is made as asked: of its kind, under its label, enabled unless it was
/// asked to be disabled, checked only if it was asked to be, and with the callback
/// or the nested menu it was given.
pub proof fn a_row_is_made_as_asked(
    label: &str,
    callback: TrayAction,
    menu: MenuRef,
    text: MenuItem,
    calling: MenuItem,
    disabled: MenuItem,
    unchecked: MenuItem,
    checked: MenuItem,
    nested: MenuItem,
    separator: MenuItem,
)
    requires
        call_ensures(MenuItem::text, (label,), text),
        call_ensures(MenuItem::text_with_action, (label, callback), calling),
        call_ensures(MenuItem::text_disabled, (label,), disabled),
        call_ensures(MenuItem::checkbox, (label,), unchecked),
        call_ensures(MenuItem::checkbox_checked, (label,), checked),
        call_ensures(MenuItem::submenu, (label, menu), nested),
        call_ensures(MenuItem::separator, (), separator),
    ensures
        text@ is Text && calling@ is Text && disabled@ is Text,
        unchecked@ is Checkbox && checked@ is Checkbox,
        nested@ is Submenu && separator@ is Separator,
        text@.label() == Some(label@) && calling@.label() == Some(label@),
        disabled@.label() == Some(label@) && unchecked@.label() == Some(label@),
        checked@.label() == Some(label@) && nested@.label() == Some(label@),
        text@.state().enabled && calling@.state().enabled && !disabled@.state().enabled,
        unchecked@.state().enabled && checked@.state().enabled && nested@.state().enabled,
        !text@.state().checked && !calling@.state().checked && !disabled@.state().checked,
        !unchecked@.state().checked && checked@.state().checked && !nested@.state().checked,
        calling@.action() == Some(callback),
        text@.action() is None && disabled@.action() is None,
        unchecked@.action() is None && checked@.action() is None && nested@.action() is None,
        nested@.children() == Some(menu),
{
}

/// A row tells its label, its state, its callback and its kind as they are.
pub proof fn a_row_tells_what_it_holds(
    item: MenuItem,
    label: Option<&str>,
    state: MenuItemState,
    action: Option<&TrayAction>,
    disabled: bool,
    checkbox: bool,
    separator: bool,
    submenu: bool,
)
    requires
        call_ensures(MenuItem::label, (&item,), label),
        call_ensures(MenuItem::state, (&item,), state),
        call_ensures(MenuItem::action, (&item,), action),
        call_ensures(MenuItem::is_disabled, (&item,), disabled),
        call_ensures(MenuItem::is_checkbox, (&item,), checkbox),
        call_ensures(MenuItem::is_separator, (&item,), separator),
        call_ensures(MenuItem::is_submenu, (&item,), submenu),
    ensures
        match item@ {
            ItemView::Text { label: l, state: s, action: a } => {
                &&& label matches Some(t) && t@ == l
                &&& state == s && disabled == !s.enabled
                &&& !checkbox && !separator && !submenu
                &&& action is Some <==> a is Some
                &&& action matches Some(c) ==> a == Some(*c)
            },
            ItemView::Checkbox { label: l, state: s, action: a } => {
                &&& label matches Some(t) && t@ == l
                &&& state == s && disabled == !s.enabled
                &&& checkbox && !separator && !submenu
                &&& action is Some <==> a is Some
                &&& action matches Some(c) ==> a == Some(*c)
            },
            ItemView::Submenu { label: l, state: s, .. } => {
                &&& label matches Some(t) && t@ == l
                &&& state == s && disabled == !s.enabled
                &&& !checkbox && !separator && submenu
                &&& action is None
            },
            ItemView::Separator => {
                &&& label is None && action is None
                &&& !state.enabled && !state.checked && disabled
                &&& !checkbox && separator && !submenu
            },
        },
{
}

/// A changed copy of a row differs from it in what was changed and in nothing
/// else.
pub proof fn a_changed_copy_differs_in_the_change(
    item: MenuItem,
    label: &str,
    state: MenuItemState,
    action: Option<TrayAction>,
    relabelled: MenuItem,
    restated: MenuItem,
    calling: MenuItem,
    silent: MenuItem,
    toggled: MenuItem,
)
    requires
        call_ensures(MenuItem::with_label, (item, label), relabelled),
        call_ensures(MenuItem::with_state, (item, state), restated),
        call_ensures(MenuItem::with_action, (item, action), calling),
        call_ensures(MenuItem::without_action, (item,), silent),
        call_ensures(MenuItem::toggled, (item,), toggled),
    ensures
        same_kind(relabelled@, item@) && same_kind(restated@, item@) && same_kind(calling@, item@),
        same_kind(silent@, item@) && same_kind(toggled@, item@),
        item@ is Separator ==> relabelled@ == item@ && restated@ == item@ && calling@ == item@,
        !(item@ is Separator) ==> relabelled@.label() == Some(label@) && restated@.state() == state,
        item@ is Text || item@ is Checkbox ==> calling@.action() == action,
        silent@.action() is None,
        item@ is Checkbox ==> toggled@.state().checked == !item@.state().checked,
        !(item@ is Checkbox) ==> toggled@ == item@,
        toggled@.state().enabled == item@.state().enabled,
        relabelled@.state() == item@.state() && relabelled@.action() == item@.action()
            && relabelled@.children() == item@.children(),
        restated@.label() == item@.label() && restated@.action() == item@.action()
            && restated@.children() == item@.children(),
        calling@.label() == item@.label() && calling@.state() == item@.state()
            && calling@.children() == item@.children(),
        silent@.label() == item@.label() && silent@.state() == item@.state() && silent@.children()
            == item@.children(),
        toggled@.label() == item@.label() && toggled@.action() == item@.action()
            && toggled@.children() == item@.children(),
{
}

/// A state is changed in one flag at a time.
pub proof fn a_state_is_changed_flag_by_flag(
    state: MenuItemState,
    flag: bool,
    able: MenuItemState,
    ticked: MenuItemState,
    disabled: bool,
)
    requires
        call_ensures(MenuItemState::with_enabled, (state, flag), able),
        call_ensures(MenuItemState::with_checked, (state, flag), ticked),
        call_ensures(MenuItemState::is_disabled, (&state,), disabled),
    ensures
        able.enabled == flag && able.checked == state.checked,
        ticked.checked == flag && ticked.enabled == state.enabled,
        disabled <==> !state.enabled,
{
}

} // verus!
