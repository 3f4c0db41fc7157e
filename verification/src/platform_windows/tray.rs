//! A Windows tray icon: the mirror of the host's state, the worker that keeps the
//! shell up to date, and the manager.

use crate::capability::{Capability, SupportLevel};
use crate::error::{ErrorView, UdaError};
use crate::platform_windows::menu_table::{
    every_row_of_a_popup_leads_home, leads_home, listing, popup, popup_rows_view, resolved,
    MenuTable, PopupRow, TableRow,
};
use crate::text::{
    decimal, decimal_is_injective, finishes_with, parts_are_found_where_they_stand, same, show,
};
use crate::tray::event::{call_of, ActionStore, TrayAction, TrayCall, TrayEvent};
use crate::tray::icon::{
    backend_support_level, host_view, published_level, seeded, source_view, ConfigView, StateView,
    TrayFeature, TrayIcon, TrayIconConfig, TrayIconInner, TrayIconState, TrayManager,
};
use crate::tray::item::MenuRef;
use crate::tray::source::{SourceView, TrayIconSource};
use crate::tray::store::{menu_at, nests, nests_within, MenuStore, StoreView};
use crate::tray::tooltip::{safe_tooltip, sanitize_tooltip};
use crate::utf16::{
    a_field_holds_as_much_as_fits, a_field_never_splits_a_character, before_nul, decoded, encoded,
    fitting, fixed_field, lemma_fitting, to_fixed_utf16,
};
use vstd::prelude::*;

verus! {

/// Message the shell posts into the hidden window: the first one of the range
/// reserved for applications.
pub const CALLBACK_MESSAGE: u32 = 0x8000;

/// Name every window class of a tray icon starts with.
pub const CLASS_NAME: &'static str = "UDA_TrayMessageWindow";

/// How often the worker mirrors the host state, in milliseconds.
pub const SYNC_INTERVAL_MS: u32 = 200;

/// The id of the timer that drives the mirroring.
pub const SYNC_TIMER_ID: usize = 1;

/// Units of the tip field of a shell request, terminator included.
pub const TIP_UNITS: usize = 128;

/// A request carries a callback message.
pub const NIF_MESSAGE: u32 = 1;

/// A request carries an icon.
pub const NIF_ICON: u32 = 2;

/// A request carries a tip.
pub const NIF_TIP: u32 = 4;

/// A request carries a state.
pub const NIF_STATE: u32 = 8;

/// The state bit of a hidden icon.
pub const NIS_HIDDEN: u32 = 1;

/// Menu selection, with the command id in the low word of its first parameter.
pub const WM_COMMAND: u32 = 0x0111;

/// Left button released.
pub const WM_LBUTTONUP: u32 = 0x0202;

/// Left button clicked twice.
pub const WM_LBUTTONDBLCLK: u32 = 0x0203;

/// Right button pressed.
pub const WM_RBUTTONDOWN: u32 = 0x0204;

/// Right button released.
pub const WM_RBUTTONUP: u32 = 0x0205;

/// The menu was asked for.
pub const WM_CONTEXTMENU: u32 = 0x007b;

/// Popup flag: the bottom edge of the menu is at the cursor.
pub const TPM_BOTTOMALIGN: u32 = 0x20;

/// Popup flag: the right button selects too.
pub const TPM_RIGHTBUTTON: u32 = 2;

/// Popup flag: report the chosen command instead of posting it.
pub const TPM_RETURNCMD: u32 = 0x100;

/// How a popup is shown: its left bottom corner at the cursor, selectable with
/// both buttons, reporting what was chosen.
pub const POPUP_FLAGS: u32 = TPM_BOTTOMALIGN | TPM_RIGHTBUTTON | TPM_RETURNCMD;

/// The status of a class registration whose name is already taken.
pub const ERROR_CLASS_ALREADY_EXISTS: u32 = 1410;

// ---------------------------------------------------------------------------
// Mirror
// ---------------------------------------------------------------------------
/// The state the worker serves: a mirror of what the host set.
#[derive(Debug)]
pub struct TrayShared {
    /// Application name; also the title of the hidden window.
    pub name: String,
    /// Current tooltip.
    pub tooltip: String,
    /// Current icon source.
    pub icon: Option<TrayIconSource>,
    /// Whether the icon is shown.
    pub visible: bool,
    /// The live menu, when one is attached.
    pub menu: Option<MenuRef>,
    /// Left-click handler.
    pub on_click: Option<TrayAction>,
    /// Double-click handler; the shell reports double clicks itself.
    pub on_double_click: Option<TrayAction>,
    /// Whether the host has let go of the icon.
    pub shutdown: bool,
}

/// What a [`TrayShared`] says.
#[verifier::ext_equal]
pub struct SharedView {
    pub name: Seq<char>,
    pub tooltip: Seq<char>,
    pub icon: Option<SourceView>,
    pub visible: bool,
    pub menu: Option<MenuRef>,
    pub on_click: Option<TrayAction>,
    pub on_double_click: Option<TrayAction>,
    pub shutdown: bool,
}

impl View for TrayShared {
    type V = SharedView;

    open spec fn view(&self) -> SharedView {
        SharedView {
            name: self.name@,
            tooltip: self.tooltip@,
            icon: source_view(self.icon),
            visible: self.visible,
            menu: self.menu,
            on_click: self.on_click,
            on_double_click: self.on_double_click,
            shutdown: self.shutdown,
        }
    }
}

impl SharedView {
    /// A visible icon without anything else.
    pub open spec fn fresh() -> SharedView {
        SharedView {
            name: Seq::empty(),
            tooltip: Seq::empty(),
            icon: None,
            visible: true,
            menu: None,
            on_click: None,
            on_double_click: None,
            shutdown: false,
        }
    }

    /// The mirror of a registration: the tooltip within its ceiling, no handlers.
    pub open spec fn of_config(config: ConfigView) -> SharedView {
        SharedView {
            name: config.name,
            tooltip: safe_tooltip(config.tooltip),
            icon: config.icon,
            visible: true,
            menu: config.menu,
            on_click: None,
            on_double_click: None,
            shutdown: false,
        }
    }

    /// The mirror after copying what the host set.
    pub open spec fn synced(self, host: Option<StateView>) -> SharedView {
        match host {
            Some(state) => SharedView {
                tooltip: state.tooltip,
                icon: state.icon,
                menu: state.menu,
                visible: state.visible,
                shutdown: state.shutdown,
                ..self
            },
            None => self,
        }
    }

    /// The handler of an event.
    pub open spec fn handler(self, event: TrayEvent) -> Option<TrayAction> {
        match event {
            TrayEvent::Click => self.on_click,
            TrayEvent::DoubleClick => self.on_double_click,
        }
    }
}

impl Default for TrayShared {
    /// A fresh icon is visible until the host hides it.
    fn default() -> (shared: Self)
        ensures
            shared@ == SharedView::fresh(),
    {
        TrayShared {
            name: String::new(),
            tooltip: String::new(),
            icon: None,
            visible: true,
            menu: None,
            on_click: None,
            on_double_click: None,
            shutdown: false,
        }
    }
}

/// A copy of an optional source.
fn copy_source(icon: &Option<TrayIconSource>) -> (copy: Option<TrayIconSource>)
    ensures
        source_view(copy) == source_view(*icon),
{
    match icon {
        Some(source) => Some(source.clone()),
        None => None,
    }
}

impl TrayShared {
    /// A state seeded from the host's registration request. The tooltip is clamped
    /// to its ceiling.
    pub fn from_config(config: &TrayIconConfig) -> (shared: Self)
        ensures
            shared@ == SharedView::of_config(config@),
    {
        TrayShared {
            name: config.name.clone(),
            tooltip: sanitize_tooltip(config.tooltip.as_str()).to_owned(),
            icon: copy_source(&config.icon),
            visible: true,
            menu: config.menu,
            on_click: None,
            on_double_click: None,
            shutdown: false,
        }
    }

    /// The mirror that a worker serves from registration on: the values of the
    /// config and its handlers.
    pub fn registered(config: &TrayIconConfig) -> (shared: Self)
        ensures
            shared@ == (SharedView {
                on_click: config.on_click,
                on_double_click: config.on_double_click,
                ..SharedView::of_config(config@)
            }),
    {
        let mut shared = TrayShared::from_config(config);
        shared.on_click = config.on_click;
        shared.on_double_click = config.on_double_click;
        shared
    }

    /// The tip of the icon; one without a tooltip shows its name.
    fn tip(&self) -> (tip: Vec<u16>)
        ensures
            tip@ == tip_of(hover_text(self@)),
    {
        let text = if self.tooltip.as_str().is_empty() {
            self.name.as_str()
        } else {
            self.tooltip.as_str()
        };
        to_fixed_utf16::<128>(sanitize_tooltip(text))
    }

    /// Copy the host-visible state into the mirror; without a host nothing
    /// changes.
    pub fn sync_from(&mut self, host: Option<&TrayIconState>)
        ensures
            final(self)@ == old(self)@.synced(host_view(host)),
    {
        if let Some(state) = host {
            self.tooltip = state.tooltip.clone();
            self.icon = copy_source(&state.icon);
            self.menu = state.menu;
            self.visible = state.visible;
            self.shutdown = state.shutdown;
        }
    }
}

/// Whether two icons are the same image, or both absent.
pub fn icons_equal(left: Option<&TrayIconSource>, right: Option<&TrayIconSource>) -> (yes: bool)
    ensures
        yes == match (left, right) {
            (None, None) => true,
            (Some(a), Some(b)) => a@ == b@,
            _ => false,
        },
{
    match (left, right) {
        (None, None) => true,
        (Some(left), Some(right)) => left.same_as(right),
        _ => false,
    }
}

/// Whether two menus are the very same menu, or both absent. Rows that changed
/// do not matter: they are read again whenever the menu is opened.
pub fn menus_equal(left: Option<MenuRef>, right: Option<MenuRef>) -> (yes: bool)
    ensures
        yes == (left == right),
{
    match (left, right) {
        (None, None) => true,
        (Some(left), Some(right)) => left == right,
        _ => false,
    }
}

// ---------------------------------------------------------------------------
// Requests to the shell
// ---------------------------------------------------------------------------
/// What the shell is told about an icon.
#[derive(Debug)]
pub struct IconRequest {
    /// The window that gets the callbacks.
    pub window: usize,
    /// The id of the icon within that window.
    pub icon_id: u32,
    /// Which of the following fields count.
    pub flags: u32,
    /// The message of a callback.
    pub callback_message: u32,
    /// The tip, NUL-terminated and padded.
    pub tip: Vec<u16>,
    /// The icon handle.
    pub icon: Option<usize>,
    /// State bits.
    pub state: u32,
    /// Which state bits count.
    pub state_mask: u32,
}

/// What an [`IconRequest`] says.
#[verifier::ext_equal]
pub struct RequestView {
    pub window: usize,
    pub icon_id: u32,
    pub flags: u32,
    pub callback_message: u32,
    pub tip: Seq<u16>,
    pub icon: Option<usize>,
    pub state: u32,
    pub state_mask: u32,
}

impl View for IconRequest {
    type V = RequestView;

    open spec fn view(&self) -> RequestView {
        RequestView {
            window: self.window,
            icon_id: self.icon_id,
            flags: self.flags,
            callback_message: self.callback_message,
            tip: self.tip@,
            icon: self.icon,
            state: self.state,
            state_mask: self.state_mask,
        }
    }
}

/// What an icon says when hovered: its tooltip, or its name when it has none.
pub open spec fn hover_text(shared: SharedView) -> Seq<char> {
    if shared.tooltip.len() == 0 {
        shared.name
    } else {
        shared.tooltip
    }
}

/// The tip of a text: at most 127 characters, as many of them as fit whole.
pub open spec fn tip_of(text: Seq<char>) -> Seq<u16> {
    fixed_field(safe_tooltip(text), TIP_UNITS as nat)
}

/// The flags of a request: an icon only counts when there is one.
pub open spec fn request_flags(icon: Option<usize>, stateful: bool) -> u32 {
    let base = NIF_MESSAGE | NIF_TIP;
    let shown = if icon is Some {
        base | NIF_ICON
    } else {
        base
    };
    if stateful {
        shown | NIF_STATE
    } else {
        shown
    }
}

fn flags_for(icon: Option<usize>, stateful: bool) -> (flags: u32)
    ensures
        flags == request_flags(icon, stateful),
{
    let mut flags: u32 = NIF_MESSAGE | NIF_TIP;
    if icon.is_some() {
        flags = flags | NIF_ICON;
    }
    if stateful {
        flags = flags | NIF_STATE;
    }
    flags
}

/// The request that adds an icon under a hover text.
pub open spec fn addition(window: usize, icon_id: u32, text: Seq<char>, icon: Option<usize>)
    -> RequestView {
    RequestView {
        window,
        icon_id,
        flags: request_flags(icon, false),
        callback_message: CALLBACK_MESSAGE,
        tip: tip_of(text),
        icon,
        state: 0,
        state_mask: 0,
    }
}

/// The request that brings a registered icon up to date. A hidden icon keeps its
/// registration and is not drawn; a visible one has its hidden bit cleared.
pub open spec fn modification(
    window: usize,
    icon_id: u32,
    text: Seq<char>,
    visible: bool,
    icon: Option<usize>,
) -> RequestView {
    let carried = if visible {
        icon
    } else {
        None
    };
    RequestView {
        window,
        icon_id,
        flags: request_flags(carried, true),
        callback_message: CALLBACK_MESSAGE,
        tip: tip_of(text),
        icon: carried,
        state: if visible {
            0
        } else {
            NIS_HIDDEN
        },
        state_mask: NIS_HIDDEN,
    }
}

// ---------------------------------------------------------------------------
// Worker
// ---------------------------------------------------------------------------
/// The tray worker: it owns the hidden window and the registered icon. Handles
/// are numbers; one that is invalid is absent.
#[derive(Debug)]
pub struct Worker {
    shared: TrayShared,
    icon_id: u32,
    window: Option<usize>,
    icon: Option<usize>,
    menu_table: MenuTable,
    version_handshake_done: bool,
    registered: bool,
    tooltip: String,
    last_icon: Option<TrayIconSource>,
    menu: Option<MenuRef>,
    visible: bool,
}

/// What a [`Worker`] says.
#[verifier::ext_equal]
pub struct WorkerView {
    /// The mirror of the host's state.
    pub shared: SharedView,
    /// The id of the icon within its window.
    pub icon_id: u32,
    /// The hidden window.
    pub window: Option<usize>,
    /// The icon the shell shows.
    pub icon: Option<usize>,
    /// The command ids of the menu.
    pub table: Seq<TableRow>,
    /// Whether the shell acknowledged the callback version.
    pub version_handshake_done: bool,
    /// Whether the shell still has to be told to forget the icon.
    pub registered: bool,
    /// The tooltip of the last update that the shell accepted.
    pub tooltip: Seq<char>,
    /// The icon source of the last update that the shell accepted.
    pub last_icon: Option<SourceView>,
    /// The menu the table was made for.
    pub menu: Option<MenuRef>,
    /// The visibility of the last update that the shell accepted.
    pub visible: bool,
}

/// Which difference a refresh is about.
#[derive(Debug, Clone, Copy, PartialEq, Eq, Structural)]
pub enum Refresh {
    /// The visibility.
    Visibility,
    /// The tooltip or the icon.
    Contents,
}

/// What the worker has to do after it looked at the host's state.
#[derive(Debug, Clone, Copy, PartialEq, Eq, Structural)]
pub enum Tick {
    /// The host let go of the icon: tear down.
    Stop,
    /// Go on. First refresh the visibility if it changed, then the contents if
    /// they changed, then make a new table if another menu is attached.
    Continue {
        /// Refresh because the visibility changed.
        visibility: bool,
        /// Refresh because the tooltip or the icon changed.
        contents: bool,
        /// Another menu is attached.
        menu: bool,
    },
}

/// What a callback of the shell asks for.
#[derive(Debug, Clone, Copy, PartialEq, Eq, Structural)]
pub enum Callback {
    /// It is about another icon.
    Ignore,
    /// Report an event to the host.
    Report(TrayEvent),
    /// Open the menu.
    ShowMenu,
    /// Leave it to the default window procedure.
    Default,
}

/// Whom a window message is for.
#[derive(Debug, Clone, Copy, PartialEq, Eq, Structural)]
pub enum Message {
    /// A callback of the shell.
    Callback,
    /// A menu selection, with its command id.
    Command(u16),
    /// The default window procedure.
    Default,
}

/// What is left to release, in this order.
#[derive(Debug, Clone, Copy, PartialEq, Eq, Structural)]
pub struct Teardown {
    /// Stop the timer of this window and have the shell forget the icon.
    pub unregister: Option<usize>,
    /// Destroy this icon.
    pub destroy_icon: Option<usize>,
    /// Destroy this window, last: the shell must not keep a window that is gone.
    pub destroy_window: Option<usize>,
}

impl WorkerView {
    /// A worker that has done nothing yet.
    pub open spec fn fresh(shared: SharedView, icon_id: u32) -> WorkerView {
        WorkerView {
            shared,
            icon_id,
            window: None,
            icon: None,
            table: Seq::empty(),
            version_handshake_done: false,
            registered: false,
            tooltip: Seq::empty(),
            last_icon: None,
            menu: None,
            visible: true,
        }
    }

    /// What differs between the host's state and what the shell shows.
    pub open spec fn pending(self) -> Tick {
        if self.shared.shutdown {
            Tick::Stop
        } else {
            Tick::Continue {
                visibility: self.shared.visible != self.visible,
                contents: self.shared.tooltip != self.tooltip || self.shared.icon
                    != self.last_icon,
                menu: self.shared.menu != self.menu,
            }
        }
    }

    /// The worker after the shell accepted an update.
    pub open spec fn recorded(self, about: Refresh) -> WorkerView {
        match about {
            Refresh::Visibility => WorkerView { visible: self.shared.visible, ..self },
            Refresh::Contents => WorkerView {
                tooltip: self.shared.tooltip,
                last_icon: self.shared.icon,
                ..self
            },
        }
    }

    /// The icon a refresh shows, given the one that was made for it: a hidden
    /// icon, and one that could not be made, leave the present one in place.
    pub open spec fn icon_shown(self, made: Option<usize>) -> Option<usize> {
        if self.shared.visible && self.shared.icon is Some && made is Some {
            made
        } else {
            self.icon
        }
    }

    /// What is left to release.
    pub open spec fn leftovers(self) -> Teardown {
        Teardown {
            unregister: if self.registered {
                self.window
            } else {
                None
            },
            destroy_icon: self.icon,
            destroy_window: self.window,
        }
    }

    /// The worker once everything is released.
    pub open spec fn released(self) -> WorkerView {
        WorkerView {
            registered: self.registered && self.window is None,
            icon: None,
            window: None,
            ..self
        }
    }
}

/// What a callback asks for, from its two parameters: the first names the icon,
/// the second is the mouse message.
pub open spec fn callback_of(icon_id: u32, addressed: u32, mouse: u32) -> Callback {
    if addressed != icon_id {
        Callback::Ignore
    } else if mouse == WM_LBUTTONUP {
        Callback::Report(TrayEvent::Click)
    } else if mouse == WM_LBUTTONDBLCLK {
        Callback::Report(TrayEvent::DoubleClick)
    } else if mouse == WM_RBUTTONUP || mouse == WM_RBUTTONDOWN || mouse == WM_CONTEXTMENU {
        Callback::ShowMenu
    } else {
        Callback::Default
    }
}

/// What is answered when the shell refuses an icon.
pub open spec fn refused_error() -> ErrorView {
    ErrorView::NotSupported("the shell refused to add a tray icon"@)
}

impl Worker {
    /// What the worker says.
    pub closed spec fn view(self) -> WorkerView {
        WorkerView {
            shared: self.shared@,
            icon_id: self.icon_id,
            window: self.window,
            icon: self.icon,
            table: self.menu_table@,
            version_handshake_done: self.version_handshake_done,
            registered: self.registered,
            tooltip: self.tooltip@,
            last_icon: source_view(self.last_icon),
            menu: self.menu,
            visible: self.visible,
        }
    }

    /// Whether every menu row stands under the id of its place.
    pub closed spec fn wf(self) -> bool {
        self.menu_table.wf()
    }

    /// A worker for the icon `icon_id` that serves `shared`.
    pub fn new(shared: TrayShared, icon_id: u32) -> (worker: Self)
        ensures
            worker.wf(),
            worker@ == WorkerView::fresh(shared@, icon_id),
    {
        Worker {
            shared,
            icon_id,
            window: None,
            icon: None,
            menu_table: MenuTable::new(),
            version_handshake_done: false,
            registered: false,
            tooltip: String::new(),
            last_icon: None,
            menu: None,
            visible: true,
        }
    }

    /// The mirror of the host's state.
    pub fn shared(&self) -> (shared: &TrayShared)
        ensures
            shared@ == self@.shared,
    {
        &self.shared
    }

    /// The command ids of the menu.
    pub fn menu_table(&self) -> (table: &MenuTable)
        requires
            self.wf(),
        ensures
            table.wf(),
            table@ == self@.table,
    {
        &self.menu_table
    }

    /// The hidden window, once it was made.
    pub fn window(&self) -> (window: Option<usize>)
        ensures
            window == self@.window,
    {
        self.window
    }

    /// The hidden window was made.
    pub fn window_created(&mut self, window: usize)
        ensures
            final(self).wf() == old(self).wf(),
            final(self)@ == (WorkerView { window: Some(window), ..old(self)@ }),
    {
        self.window = Some(window);
    }

    /// The request that adds the icon made from the mirrored source, if one could
    /// be made. Without a window there is nothing to add it to.
    pub fn add_request(&self, made: Option<usize>) -> (request: Option<IconRequest>)
        ensures
            request is Some <==> self@.window is Some,
            request matches Some(r) ==> r@ == addition(
                self@.window->0,
                self@.icon_id,
                hover_text(self@.shared),
                made,
            ),
    {
        match self.window {
            None => None,
            Some(window) => Some(
                IconRequest {
                    window,
                    icon_id: self.icon_id,
                    flags: flags_for(made, false),
                    callback_message: CALLBACK_MESSAGE,
                    tip: self.shared.tip(),
                    icon: made,
                    state: 0,
                    state_mask: 0,
                },
            ),
        }
    }

    /// The shell accepted or refused the icon that was to be added. Returns the
    /// icon to destroy: a refused one is of no use.
    pub fn added(&mut self, made: Option<usize>, accepted: bool) -> (unused: Option<usize>)
        ensures
            final(self).wf() == old(self).wf(),
            accepted ==> unused is None && final(self)@ == (WorkerView {
                icon: made,
                registered: true,
                ..old(self)@
            }),
            !accepted ==> unused == made && final(self)@ == old(self)@,
    {
        if !accepted {
            return made;
        }
        self.icon = made;
        self.registered = true;
        None
    }

    /// The shell did or did not acknowledge the callback version. Without it
    /// clicks still arrive, so this is no failure.
    pub fn version_answered(&mut self, acknowledged: bool)
        ensures
            final(self).wf() == old(self).wf(),
            final(self)@ == (WorkerView { version_handshake_done: acknowledged, ..old(self)@ }),
    {
        self.version_handshake_done = acknowledged;
    }

    /// The source to make an icon from for a refresh; a hidden icon needs none.
    pub fn source_to_show(&self) -> (source: Option<&TrayIconSource>)
        ensures
            source is Some <==> self@.shared.visible && self@.shared.icon is Some,
            source matches Some(s) ==> self@.shared.icon == Some(s@),
    {
        if self.shared.visible {
            match &self.shared.icon {
                Some(source) => Some(source),
                None => None,
            }
        } else {
            None
        }
    }

    /// The request that brings the registered icon up to date, with the icon made
    /// from [`Worker::source_to_show`] if one could be made.
    pub fn refresh_request(&self, made: Option<usize>) -> (request: Option<IconRequest>)
        ensures
            request is Some <==> self@.window is Some,
            request matches Some(r) ==> r@ == modification(
                self@.window->0,
                self@.icon_id,
                hover_text(self@.shared),
                self@.shared.visible,
                self@.icon_shown(made),
            ),
    {
        let icon = self.shown_icon(made);
        let carried = if self.shared.visible {
            icon
        } else {
            None
        };
        match self.window {
            None => None,
            Some(window) => Some(
                IconRequest {
                    window,
                    icon_id: self.icon_id,
                    flags: flags_for(carried, true),
                    callback_message: CALLBACK_MESSAGE,
                    tip: self.shared.tip(),
                    icon: carried,
                    state: if self.shared.visible {
                        0
                    } else {
                        NIS_HIDDEN
                    },
                    state_mask: NIS_HIDDEN,
                },
            ),
        }
    }

    /// The icon a refresh shows.
    fn shown_icon(&self, made: Option<usize>) -> (icon: Option<usize>)
        ensures
            icon == self@.icon_shown(made),
    {
        if self.shared.visible && self.shared.icon.is_some() && made.is_some() {
            made
        } else {
            self.icon
        }
    }

    /// The shell accepted or refused an update. Returns the icon to destroy: the
    /// previous one, once the shell accepted another. A refused update retires
    /// nothing, so that it never leaves the item without an icon, and is still
    /// pending, so the next tick asks again; the icon that was made for it stays
    /// the caller's.
    pub fn refreshed(&mut self, about: Refresh, made: Option<usize>, accepted: bool) -> (retired:
        Option<usize>)
        ensures
            final(self).wf() == old(self).wf(),
            ({
                let shown = old(self)@.icon_shown(made);
                if accepted {
                    &&& final(self)@ == (WorkerView { icon: shown, ..old(self)@.recorded(about) })
                    &&& retired == (if shown != old(self)@.icon {
                        old(self)@.icon
                    } else {
                        None
                    })
                } else {
                    &&& final(self)@ == old(self)@
                    &&& retired is None
                }
            }),
    {
        if !accepted {
            return None;
        }
        let shown = self.shown_icon(made);
        let differs = match (shown, self.icon) {
            (Some(new), Some(present)) => new != present,
            (None, None) => false,
            _ => true,
        };
        match about {
            Refresh::Visibility => {
                self.visible = self.shared.visible;
            },
            Refresh::Contents => {
                self.tooltip = self.shared.tooltip.clone();
                self.last_icon = copy_source(&self.shared.icon);
            },
        }
        let retired = if differs {
            self.icon
        } else {
            None
        };
        self.icon = shown;
        retired
    }

    /// Mirror the host's state and tell what has to be done about it.
    pub fn on_tick(&mut self, host: Option<&TrayIconState>) -> (tick: Tick)
        ensures
            final(self).wf() == old(self).wf(),
            final(self)@ == (WorkerView {
                shared: old(self)@.shared.synced(host_view(host)),
                ..old(self)@
            }),
            tick == final(self)@.pending(),
    {
        self.shared.sync_from(host);
        if self.shared.shutdown {
            return Tick::Stop;
        }
        let same_icon = icons_equal(self.shared.icon.as_ref(), self.last_icon.as_ref());
        let same_tooltip = same(self.shared.tooltip.as_str(), self.tooltip.as_str());
        Tick::Continue {
            visibility: self.shared.visible != self.visible,
            contents: !same_tooltip || !same_icon,
            menu: !menus_equal(self.shared.menu, self.menu),
        }
    }

    /// Make the table of the mirrored menu.
    pub fn rebuild_menu(&mut self, store: &MenuStore)
        requires
            old(self)@.shared.menu matches Some(menu) ==> nests(store@, menu),
        ensures
            final(self).wf(),
            final(self)@ == (WorkerView {
                menu: old(self)@.shared.menu,
                table: fresh_table(store@, old(self)@.shared.menu),
                ..old(self)@
            }),
    {
        self.menu = self.shared.menu;
        self.menu_table = match self.shared.menu {
            Some(menu) => MenuTable::from_menu(store, menu),
            None => MenuTable::new(),
        };
    }

    /// What a callback of the shell asks for.
    pub fn on_callback(&self, wparam: usize, lparam: isize) -> (callback: Callback)
        ensures
            callback == callback_of(self@.icon_id, wparam as u32, lparam as u32),
    {
        if wparam as u32 != self.icon_id {
            return Callback::Ignore;
        }
        let mouse: u32 = lparam as u32;
        if mouse == WM_LBUTTONUP {
            Callback::Report(TrayEvent::Click)
        } else if mouse == WM_LBUTTONDBLCLK {
            Callback::Report(TrayEvent::DoubleClick)
        } else if mouse == WM_RBUTTONUP || mouse == WM_RBUTTONDOWN || mouse == WM_CONTEXTMENU {
            Callback::ShowMenu
        } else {
            Callback::Default
        }
    }

    /// The call that reports an event, if a handler is registered for it.
    pub fn dispatch(&self, actions: &ActionStore, event: TrayEvent) -> (call: Option<TrayCall>)
        ensures
            call == call_of(actions@, self@.shared.handler(event), event),
    {
        let handler = match event {
            TrayEvent::Click => self.shared.on_click,
            TrayEvent::DoubleClick => self.shared.on_double_click,
        };
        actions.call(handler, event)
    }

    /// Plan the popup of the mirrored menu; without a menu there is none. The
    /// host may have changed the rows since they were last shown, so the table is
    /// made anew on every opening.
    pub fn show_menu(&mut self, store: &MenuStore) -> (rows: Option<Vec<PopupRow>>)
        requires
            old(self).wf(),
            old(self)@.shared.menu matches Some(menu) ==> nests(store@, menu),
        ensures
            final(self).wf(),
            rows is Some <==> old(self)@.shared.menu is Some,
            match old(self)@.shared.menu {
                None => final(self)@ == old(self)@,
                Some(menu) => {
                    &&& final(self)@ == (WorkerView {
                        table: listing(store@, menu, true) + listing(store@, menu, false),
                        ..old(self)@
                    })
                    &&& rows matches Some(planned) ==> popup_rows_view(planned@) == popup(
                        store@,
                        menu,
                        listing(store@, menu, true).len() as int,
                    )
                },
            },
    {
        match self.shared.menu {
            None => None,
            Some(menu) => {
                let mut table = MenuTable::from_menu(store, menu);
                let rows = table.build(store, menu);
                self.menu_table = table;
                Some(rows)
            },
        }
    }

    /// The call for what was chosen in a popup. The command id is the low word of
    /// what Win32 reports; 0 means that the menu was dismissed.
    pub fn chosen(&self, actions: &ActionStore, reported: i32) -> (call: Option<TrayCall>)
        requires
            self.wf(),
        ensures
            call == call_of(actions@, resolved(self@.table, reported as u16), TrayEvent::Click),
    {
        self.on_command(actions, reported as u16)
    }

    /// The call for a menu selection.
    pub fn on_command(&self, actions: &ActionStore, command_id: u16) -> (call: Option<TrayCall>)
        requires
            self.wf(),
        ensures
            call == call_of(actions@, resolved(self@.table, command_id), TrayEvent::Click),
    {
        if command_id == 0 {
            return None;
        }
        actions.call(self.menu_table.action_for(command_id), TrayEvent::Click)
    }

    /// Let go of everything. Returns what is left to release.
    pub fn teardown(&mut self) -> (plan: Teardown)
        ensures
            final(self).wf() == old(self).wf(),
            plan == old(self)@.leftovers(),
            final(self)@ == old(self)@.released(),
    {
        let unregister = if self.registered {
            self.window
        } else {
            None
        };
        if self.window.is_some() {
            self.registered = false;
        }
        let plan = Teardown {
            unregister,
            destroy_icon: self.icon,
            destroy_window: self.window,
        };
        self.icon = None;
        self.window = None;
        plan
    }
}

/// The table of a menu that may not be there.
pub open spec fn fresh_table(store: StoreView, menu: Option<MenuRef>) -> Seq<TableRow> {
    match menu {
        Some(menu) => listing(store, menu, true),
        None => Seq::empty(),
    }
}

/// Tearing down a second time releases nothing.
pub proof fn teardown_is_idempotent(worker: WorkerView)
    ensures
        worker.released().leftovers() == (Teardown {
            unregister: None,
            destroy_icon: None,
            destroy_window: None,
        }),
        worker.released().released() == worker.released(),
{
}

/// Once the shell accepted every update that a tick asked for and the table was
/// made for the attached menu, the next tick of an unchanged host asks for
/// nothing; and until then it asks again.
pub proof fn accepted_updates_leave_nothing_pending(
    worker: WorkerView,
    host: StateView,
    table: Seq<TableRow>,
)
    requires
        !host.shutdown,
        worker.shared.synced(Some(host)) == worker.shared,
    ensures
        worker.recorded(Refresh::Visibility).pending()->visibility == false,
        worker.recorded(Refresh::Contents).pending()->contents == false,
        worker.recorded(Refresh::Visibility).pending()->contents == worker.pending()->contents,
        worker.recorded(Refresh::Contents).pending()->visibility == worker.pending()->visibility,
        (WorkerView {
            menu: worker.shared.menu,
            table,
            ..worker.recorded(Refresh::Visibility).recorded(Refresh::Contents)
        }).pending() == (Tick::Continue { visibility: false, contents: false, menu: false }),
{
}

/// A worker stops at the first tick after the host let go of its icon, whatever
/// else changed.
pub proof fn a_released_host_stops_the_worker(worker: WorkerView, host: StateView)
    requires
        host.shutdown,
    ensures
        (WorkerView { shared: worker.shared.synced(Some(host)), ..worker }).pending()
            == Tick::Stop,
{
}

/// Hiding and showing again are opposite requests: both concern the hidden bit,
/// one sets it and the other clears it, and only a visible icon is drawn.
pub proof fn showing_undoes_hiding(
    window: usize,
    icon_id: u32,
    tooltip: Seq<char>,
    icon: Option<usize>,
)
    ensures
        modification(window, icon_id, tooltip, false, icon).state == NIS_HIDDEN,
        modification(window, icon_id, tooltip, true, icon).state == 0,
        modification(window, icon_id, tooltip, false, icon).state_mask == NIS_HIDDEN,
        modification(window, icon_id, tooltip, true, icon).state_mask == NIS_HIDDEN,
        modification(window, icon_id, tooltip, false, icon).icon is None,
        modification(window, icon_id, tooltip, true, icon).icon == icon,
{
}

/// Whom a window message is for.
pub fn route_message(message: u32, wparam: usize) -> (route: Message)
    ensures
        route == (if message == CALLBACK_MESSAGE {
            Message::Callback
        } else if message == WM_COMMAND {
            Message::Command((wparam & 0xffff) as u16)
        } else {
            Message::Default
        }),
{
    if message == CALLBACK_MESSAGE {
        Message::Callback
    } else if message == WM_COMMAND {
        Message::Command((wparam & 0xffff) as u16)
    } else {
        Message::Default
    }
}

/// Whether the message loop goes on after `GetMessageW` returned `result`: 0 is
/// the request to quit, and a negative value is an error.
pub fn keeps_pumping(result: i32) -> (yes: bool)
    ensures
        yes == (result > 0),
{
    result > 0
}

/// Where the menu opens: at the cursor, or in the corner when it is not known.
pub fn menu_point(cursor: Option<(i32, i32)>) -> (point: (i32, i32))
    ensures
        point == (match cursor {
            Some(at) => at,
            None => (0i32, 0i32),
        }),
{
    match cursor {
        Some(at) => at,
        None => (0, 0),
    }
}

/// Whether a window class can be used after `RegisterClassW` returned `atom`: a
/// class that is already registered counts.
pub fn class_is_available(atom: u16, last_error: u32) -> (yes: bool)
    ensures
        yes == (atom != 0 || last_error == ERROR_CLASS_ALREADY_EXISTS),
{
    atom != 0 || last_error == ERROR_CLASS_ALREADY_EXISTS
}

/// One step of setting an icon up. The window has to exist before the icon,
/// because the shell posts its callbacks there, and the icon before the version
/// handshake, because until then there is nothing to version.
#[derive(Debug, Clone, Copy, PartialEq, Eq, Structural)]
pub enum SetupStep {
    /// Find the module of the executable.
    FindModule,
    /// Register the window class.
    RegisterClass,
    /// Create the hidden window.
    CreateWindow,
    /// Check that the window can be used, and record it.
    CheckWindow,
    /// Add the icon.
    AddIcon,
    /// Ask for the modern callbacks; a refusal is not fatal.
    SetVersion,
    /// The icon is registered.
    Ready,
}

/// The step after one that went well.
pub open spec fn setup_after(step: SetupStep) -> SetupStep {
    match step {
        SetupStep::FindModule => SetupStep::RegisterClass,
        SetupStep::RegisterClass => SetupStep::CreateWindow,
        SetupStep::CreateWindow => SetupStep::CheckWindow,
        SetupStep::CheckWindow => SetupStep::AddIcon,
        SetupStep::AddIcon => SetupStep::SetVersion,
        SetupStep::SetVersion => SetupStep::Ready,
        SetupStep::Ready => SetupStep::Ready,
    }
}

/// What a step that failed is answered, given the reason; `None` when the setup
/// goes on all the same.
pub open spec fn setup_failure(step: SetupStep, shown: Seq<char>) -> Option<ErrorView> {
    match step {
        SetupStep::FindModule => Some(ErrorView::Internal("GetModuleHandleW failed: "@ + shown)),
        SetupStep::RegisterClass => Some(
            ErrorView::Internal("could not register the tray window class"@),
        ),
        SetupStep::CreateWindow => Some(
            ErrorView::Internal("could not create the tray window: "@ + shown),
        ),
        SetupStep::CheckWindow => Some(ErrorView::Internal("the tray window is invalid"@)),
        SetupStep::AddIcon => Some(refused_error()),
        SetupStep::SetVersion => None,
        SetupStep::Ready => None,
    }
}

/// A setup that fails nowhere takes six steps; one that the shell refuses ends
/// before the version is asked for.
pub proof fn the_window_comes_before_the_icon()
    ensures
        ({
            let made = setup_after(setup_after(SetupStep::FindModule));
            let added = setup_after(setup_after(made));
            &&& made == SetupStep::CreateWindow
            &&& added == SetupStep::AddIcon
            &&& setup_after(setup_after(added)) == SetupStep::Ready
            &&& setup_failure(added, Seq::empty()) == Some(refused_error())
        }),
{
}

impl SetupStep {
    /// The step that follows when this one went well, or failed for a reason; or
    /// the error to report.
    pub fn after(self, failure: Option<&str>) -> (res: Result<SetupStep, UdaError>)
        ensures
            match failure {
                None => res == Ok::<SetupStep, UdaError>(setup_after(self)),
                Some(shown) => match setup_failure(self, shown@) {
                    None => res == Ok::<SetupStep, UdaError>(setup_after(self)),
                    Some(said) => res matches Err(error) && error@ == said,
                },
            },
    {
        if let Some(shown) = failure {
            match self {
                SetupStep::FindModule => {
                    return Err(
                        UdaError::Internal("GetModuleHandleW failed: ".to_owned().concat(shown)),
                    );
                },
                SetupStep::RegisterClass => {
                    return Err(
                        UdaError::Internal("could not register the tray window class".to_owned()),
                    );
                },
                SetupStep::CreateWindow => {
                    return Err(
                        UdaError::Internal(
                            "could not create the tray window: ".to_owned().concat(shown),
                        ),
                    );
                },
                SetupStep::CheckWindow => {
                    return Err(UdaError::Internal("the tray window is invalid".to_owned()));
                },
                SetupStep::AddIcon => {
                    return Err(
                        UdaError::NotSupported("the shell refused to add a tray icon".to_owned()),
                    );
                },
                _ => {},
            }
        }
        Ok(
            match self {
                SetupStep::FindModule => SetupStep::RegisterClass,
                SetupStep::RegisterClass => SetupStep::CreateWindow,
                SetupStep::CreateWindow => SetupStep::CheckWindow,
                SetupStep::CheckWindow => SetupStep::AddIcon,
                SetupStep::AddIcon => SetupStep::SetVersion,
                SetupStep::SetVersion => SetupStep::Ready,
                SetupStep::Ready => SetupStep::Ready,
            },
        )
    }
}

// ---------------------------------------------------------------------------
// Manager
// ---------------------------------------------------------------------------
/// The flags a registered icon publishes. The shell reports double clicks itself,
/// so they are among them.
pub const WINDOWS_TRAY_FLAGS: u32 = Capability::SYSTEM_TRAY | Capability::TRAY_ICON
    | Capability::TRAY_TOOLTIP | Capability::TRAY_CLICK | Capability::TRAY_CONTEXT_MENU
    | Capability::TRAY_CHECKBOX | Capability::TRAY_DYNAMIC_MENU | Capability::TRAY_DOUBLE_CLICK;

/// What became of a worker that was started.
#[derive(Debug)]
pub enum Readiness {
    /// It could not be started, for this reason.
    NotStarted(String),
    /// It registered the icon.
    Ready,
    /// It failed with this message.
    Failed(String),
    /// It did not report in time.
    TimedOut,
}

/// What the host is answered about a worker.
pub open spec fn readiness_error(readiness: Readiness) -> Option<ErrorView> {
    match readiness {
        Readiness::NotStarted(shown) => Some(
            ErrorView::Internal("could not spawn the tray worker: "@ + shown@),
        ),
        Readiness::Ready => None,
        Readiness::Failed(message) => Some(ErrorView::NotSupported(message@)),
        Readiness::TimedOut => Some(
            ErrorView::Internal("the tray worker did not report readiness in time"@),
        ),
    }
}

/// A freshly registered icon and the mirror its worker serves agree: the first
/// look at the host changes nothing in the mirror.
pub proof fn registration_is_consistent(config: ConfigView)
    ensures
        ({
            let host = StateView {
                capabilities: WINDOWS_TRAY_FLAGS,
                ..seeded(StateView::fresh(), config)
            };
            SharedView::of_config(config).synced(Some(host)) == SharedView::of_config(config)
        }),
{
}

/// Windows tray manager.
#[derive(Debug, Default, Clone, Copy)]
pub struct WindowsTrayManager;

/// The window class of the icon with the given number.
pub open spec fn class_of(index: u32) -> Seq<char> {
    CLASS_NAME@ + "_"@ + decimal(index as nat)
}

/// Two icons of a process never share a window class.
pub proof fn window_classes_are_unique(a: u32, b: u32)
    requires
        class_of(a) == class_of(b),
    ensures
        a == b,
{
    let head = CLASS_NAME@ + "_"@;
    let da = decimal(a as nat);
    let db = decimal(b as nat);
    assert(da =~= class_of(a).skip(head.len() as int));
    assert(db =~= class_of(b).skip(head.len() as int));
    decimal_is_injective(a as nat, b as nat);
}

impl WindowsTrayManager {
    /// A new manager.
    #[must_use]
    pub fn new() -> (manager: Self)
        ensures
            manager == WindowsTrayManager,
    {
        WindowsTrayManager
    }

    /// The capability set this backend publishes for a registered icon.
    pub fn advertised_capabilities() -> (capabilities: Capability)
        ensures
            capabilities@ == WINDOWS_TRAY_FLAGS,
    {
        Capability::of(WINDOWS_TRAY_FLAGS)
    }

    /// The window class of the icon with the given number.
    pub fn window_class(index: u32) -> (name: String)
        ensures
            name@ == class_of(index),
    {
        CLASS_NAME.to_owned().concat("_").concat(show(index as u64).as_str())
    }

    /// What the host is answered about the worker of an icon.
    pub fn worker_answer(readiness: Readiness) -> (res: Result<(), UdaError>)
        ensures
            res is Ok <==> readiness_error(readiness) is None,
            res matches Err(error) ==> readiness_error(readiness) == Some(error@),
    {
        match readiness {
            Readiness::NotStarted(shown) => Err(
                UdaError::Internal(
                    "could not spawn the tray worker: ".to_owned().concat(shown.as_str()),
                ),
            ),
            Readiness::Ready => Ok(()),
            Readiness::Failed(message) => Err(UdaError::NotSupported(message)),
            Readiness::TimedOut => Err(
                UdaError::Internal("the tray worker did not report readiness in time".to_owned()),
            ),
        }
    }
}

impl TrayManager for WindowsTrayManager {
    /// The icon of a registration: seeded from the config, with the backend's
    /// capabilities published.
    fn create(&self, config: TrayIconConfig) -> (res: Result<TrayIcon, UdaError>)
        ensures
            res matches Ok(icon) && icon.spec_name() == config.name@ && icon.state() == (StateView {
                capabilities: WINDOWS_TRAY_FLAGS,
                ..seeded(StateView::fresh(), config@)
            }),
    {
        let mut inner = TrayIconInner::new(config.name.clone());
        inner.seed(&config);
        inner.set_capabilities(WindowsTrayManager::advertised_capabilities());
        Ok(TrayIcon::from_inner(inner))
    }

    fn capabilities(&self) -> (capabilities: Capability)
        ensures
            capabilities@ == WINDOWS_TRAY_FLAGS,
    {
        WindowsTrayManager::advertised_capabilities()
    }

    fn support_level(&self, feature: TrayFeature) -> (level: SupportLevel)
        ensures
            level == SupportLevel::Full,
    {
        let capabilities = WindowsTrayManager::advertised_capabilities();
        proof {
            every_tray_feature_is_supported(capabilities, feature);
        }
        backend_support_level(capabilities, feature)
    }
}

/// The published flags claim every feature.
pub proof fn every_tray_feature_is_supported(capabilities: Capability, feature: TrayFeature)
    requires
        capabilities@ == WINDOWS_TRAY_FLAGS,
    ensures
        published_level(capabilities, feature) == SupportLevel::Full,
{
    assert(({
        let all = WINDOWS_TRAY_FLAGS;
        &&& all & Capability::SYSTEM_TRAY == Capability::SYSTEM_TRAY
        &&& all & Capability::TRAY_ICON == Capability::TRAY_ICON
        &&& all & Capability::TRAY_TOOLTIP == Capability::TRAY_TOOLTIP
        &&& all & Capability::TRAY_CLICK == Capability::TRAY_CLICK
        &&& all & Capability::TRAY_DOUBLE_CLICK == Capability::TRAY_DOUBLE_CLICK
        &&& all & Capability::TRAY_CONTEXT_MENU == Capability::TRAY_CONTEXT_MENU
        &&& all & Capability::TRAY_CHECKBOX == Capability::TRAY_CHECKBOX
        &&& all & Capability::TRAY_DYNAMIC_MENU == Capability::TRAY_DYNAMIC_MENU
    })) by (bit_vector);
}

// ---------------------------------------------------------------------------
// What the shell is told
// ---------------------------------------------------------------------------
/// The mirror copies what the host set, whether it let go of the icon among it,
/// and keeps its name and its handlers; without a host nothing changes.
pub proof fn a_mirror_copies_what_the_host_set(mirror: SharedView, host: StateView)
    ensures
        ({
            let after = mirror.synced(Some(host));
            &&& after.tooltip == host.tooltip
            &&& after.icon == host.icon
            &&& after.menu == host.menu
            &&& after.visible == host.visible
            &&& after.shutdown == host.shutdown
            &&& after.name == mirror.name
            &&& after.on_click == mirror.on_click
            &&& after.on_double_click == mirror.on_double_click
        }),
        mirror.synced(None) == mirror,
{
}

/// The mirror of a registration shows what was registered and reports to the
/// handlers that were registered: a click to the one, a double click to the
/// other.
pub proof fn a_mirror_serves_what_was_registered(config: TrayIconConfig, shared: TrayShared)
    requires
        call_ensures(TrayShared::registered, (&config,), shared),
    ensures
        shared@.name == config.name@,
        shared@.visible,
        !shared@.shutdown,
        shared@.menu == config.menu,
        shared@.icon == config@.icon,
        shared@.handler(TrayEvent::Click) == config.on_click,
        shared@.handler(TrayEvent::DoubleClick) == config.on_double_click,
        shared@.tooltip.is_prefix_of(config.tooltip@),
        config.tooltip@.len() <= 127 ==> shared@.tooltip == config.tooltip@,
{
}

/// An icon is hovered under its tooltip, or under its name when it has none; the
/// shell reads the text back from the tip, as far as it fits 127 units.
pub proof fn a_tip_reads_back(shared: SharedView)
    requires
        !hover_text(shared).contains('\0'),
    ensures
        shared.tooltip.len() > 0 ==> hover_text(shared) == shared.tooltip,
        shared.tooltip.len() == 0 ==> hover_text(shared) == shared.name,
        tip_of(hover_text(shared)).len() == 128,
        tip_of(hover_text(shared)).last() == 0,
        decoded(before_nul(tip_of(hover_text(shared)))).is_prefix_of(hover_text(shared)),
        encoded(hover_text(shared)).len() <= 127 && hover_text(shared).len() <= 127 ==> decoded(
            before_nul(tip_of(hover_text(shared))),
        ) == hover_text(shared),
{
    let text = hover_text(shared);
    let safe = safe_tooltip(text);
    assert(!safe.contains('\0')) by {
        if safe.contains('\0') {
            let i = choose|i: int| 0 <= i < safe.len() && safe[i] == '\0';
            assert(text[i] == '\0');
        }
    }
    a_field_never_splits_a_character(safe, 128);
    a_field_holds_as_much_as_fits(safe, 127);
    let n = fitting(safe, 127) as int;
    if encoded(text).len() <= 127 && text.len() <= 127 {
        assert(safe.take(n) =~= text);
    } else {
        lemma_fitting(safe, 127);
        assert(safe.take(n).is_prefix_of(text)) by {
            assert(safe.take(n) =~= text.take(n));
        }
    }
}

/// Every request carries a message and a tip; an icon is carried exactly when
/// there is one, and a state only by a request that changes it.
pub proof fn a_request_carries_what_it_says(icon: Option<usize>, stateful: bool)
    ensures
        request_flags(icon, stateful) & 1 != 0,
        request_flags(icon, stateful) & 4 != 0,
        request_flags(icon, stateful) & 2 != 0 <==> icon is Some,
        request_flags(icon, stateful) & 8 != 0 <==> stateful,
        request_flags(icon, stateful) <= 15,
{
    assert(({
        let base = 1u32 | 4u32;
        &&& base & 1 != 0 && base & 4 != 0 && base & 2 == 0 && base & 8 == 0 && base <= 15
        &&& (base | 2) & 1 != 0 && (base | 2) & 4 != 0 && (base | 2) & 2 != 0 && (base | 2) & 8 == 0
        &&& (base | 8) & 1 != 0 && (base | 8) & 4 != 0 && (base | 8) & 2 == 0 && (base | 8) & 8 != 0
        &&& (base | 2 | 8) & 1 != 0 && (base | 2 | 8) & 4 != 0 && (base | 2 | 8) & 2 != 0 && (base
            | 2 | 8) & 8 != 0
        &&& base | 2 <= 15 && base | 8 <= 15 && base | 2 | 8 <= 15
    })) by (bit_vector);
}

/// A request addresses the icon by its window and its id, asks for callbacks
/// under the message `0x8000` and carries the hover text. Only a modification
/// carries a state: the hidden bit, set exactly for a hidden icon.
pub proof fn a_request_addresses_its_icon(
    window: usize,
    icon_id: u32,
    text: Seq<char>,
    visible: bool,
    icon: Option<usize>,
)
    ensures
        ({
            let added = addition(window, icon_id, text, icon);
            let changed = modification(window, icon_id, text, visible, icon);
            &&& added.window == window && added.icon_id == icon_id && added.callback_message
                == 0x8000
            &&& added.tip == tip_of(text) && added.icon == icon && added.state == 0
                && added.state_mask == 0
            &&& added.flags == request_flags(icon, false)
            &&& changed.window == window && changed.icon_id == icon_id
                && changed.callback_message == 0x8000
            &&& changed.tip == tip_of(text) && changed.state_mask == 1
            &&& changed.state == (if visible {
                0u32
            } else {
                1u32
            })
            &&& changed.icon == (if visible {
                icon
            } else {
                None
            })
            &&& changed.flags == request_flags(changed.icon, true)
        }),
{
}

/// A tick asks for exactly what differs from what the shell last accepted, unless
/// the host let go of the icon.
pub proof fn a_tick_asks_for_what_differs(worker: WorkerView)
    ensures
        worker.pending() == Tick::Stop <==> worker.shared.shutdown,
        !worker.shared.shutdown ==> {
            &&& worker.pending()->visibility <==> worker.shared.visible != worker.visible
            &&& worker.pending()->contents <==> !(worker.shared.tooltip == worker.tooltip
                && worker.shared.icon == worker.last_icon)
            &&& worker.pending()->menu <==> worker.shared.menu != worker.menu
        },
{
}

/// An accepted update records what it was about, and nothing else of the worker
/// changes.
pub proof fn an_accepted_update_is_recorded(worker: WorkerView)
    ensures
        ({
            let shown = worker.recorded(Refresh::Visibility);
            let filled = worker.recorded(Refresh::Contents);
            &&& shown.visible == worker.shared.visible
            &&& shown.tooltip == worker.tooltip && shown.last_icon == worker.last_icon
            &&& filled.tooltip == worker.shared.tooltip
            &&& filled.last_icon == worker.shared.icon
            &&& filled.visible == worker.visible
            &&& shown.shared == worker.shared && filled.shared == worker.shared
            &&& shown.icon == worker.icon && filled.icon == worker.icon
            &&& shown.window == worker.window && filled.window == worker.window
            &&& shown.menu == worker.menu && filled.menu == worker.menu
            &&& shown.table == worker.table && filled.table == worker.table
            &&& shown.registered == worker.registered && filled.registered == worker.registered
        }),
{
}

/// A refresh shows the icon that was made for it; a hidden icon, one without a
/// source and one that could not be made leave the present one in place.
pub proof fn a_refresh_shows_what_was_made(worker: WorkerView, made: Option<usize>)
    ensures
        worker.icon_shown(None) == worker.icon,
        !worker.shared.visible ==> worker.icon_shown(made) == worker.icon,
        worker.shared.icon is None ==> worker.icon_shown(made) == worker.icon,
        worker.shared.visible && worker.shared.icon is Some && made is Some ==> worker.icon_shown(
            made,
        ) == made,
{
}

/// Tearing down destroys the icon and the window that are there, and has the
/// shell forget an icon it was told of; a fresh worker has nothing to release.
pub proof fn everything_that_is_there_is_released(
    worker: WorkerView,
    shared: SharedView,
    icon_id: u32,
)
    ensures
        worker.leftovers().destroy_icon == worker.icon,
        worker.leftovers().destroy_window == worker.window,
        worker.registered ==> worker.leftovers().unregister == worker.window,
        !worker.registered ==> worker.leftovers().unregister is None,
        worker.released().icon is None && worker.released().window is None,
        worker.window is Some ==> !worker.released().registered,
        worker.released().shared == worker.shared,
        ({
            let fresh = WorkerView::fresh(shared, icon_id);
            &&& fresh.shared == shared && fresh.icon_id == icon_id
            &&& !fresh.registered && !fresh.version_handshake_done && fresh.visible
            &&& fresh.table.len() == 0 && fresh.tooltip.len() == 0
            &&& fresh.leftovers().destroy_icon is None && fresh.leftovers().destroy_window is None
                && fresh.leftovers().unregister is None
        }),
{
}

/// A callback about this icon is a click for `0x202`, a double click for `0x203`
/// and opens the menu for `0x204`, `0x205` and `0x7b`; any other is left to the
/// system, and one about another icon is ignored.
pub proof fn a_callback_is_known_by_its_mouse_message(icon_id: u32, addressed: u32, mouse: u32)
    ensures
        callback_of(icon_id, addressed, mouse) == Callback::Ignore <==> addressed != icon_id,
        callback_of(icon_id, icon_id, mouse) == Callback::Report(TrayEvent::Click) <==> mouse
            == 0x202,
        callback_of(icon_id, icon_id, mouse) == Callback::Report(TrayEvent::DoubleClick) <==> mouse
            == 0x203,
        callback_of(icon_id, icon_id, mouse) == Callback::ShowMenu <==> mouse == 0x204 || mouse
            == 0x205 || mouse == 0x7b,
{
}

/// A click is reported to the click handler and a double click to the
/// double-click handler.
pub proof fn an_event_reaches_its_handler(shared: SharedView)
    ensures
        shared.handler(TrayEvent::Click) == shared.on_click,
        shared.handler(TrayEvent::DoubleClick) == shared.on_double_click,
{
}

/// The shell posts its callbacks under `0x8000`, and a menu selection comes under
/// `0x111` with the command in the low word; nothing else is for the icon.
pub proof fn a_message_is_routed_by_its_number(message: u32, wparam: usize, route: Message)
    requires
        call_ensures(route_message, (message, wparam), route),
    ensures
        route == Message::Callback <==> message == 0x8000,
        message == 0x111 ==> route == Message::Command((wparam % 0x10000) as u16),
        message != 0x8000 && message != 0x111 ==> route == Message::Default,
{
    assert(wparam & 0xffff == wparam % 0x10000) by (bit_vector);
}

/// The popup that is shown lists the menu as it is now, and every row of it, at
/// any depth, leads to the callback that the row itself carries.
pub proof fn a_shown_menu_leads_home(store: StoreView, menu: MenuRef, depth: nat)
    requires
        nests_within(store, menu, depth),
        listing(store, menu, true).len() + listing(store, menu, false).len() <= u16::MAX,
    ensures
        leads_home(
            store,
            menu_at(store, menu).rows,
            popup(store, menu, listing(store, menu, true).len() as int),
            listing(store, menu, true) + listing(store, menu, false),
            (depth - 1) as nat,
        ),
        fresh_table(store, Some(menu)) == listing(store, menu, true),
        fresh_table(store, None).len() == 0,
{
    every_row_of_a_popup_leads_home(store, menu, listing(store, menu, true), depth);
}

/// An icon is set up in order. The version handshake alone may fail; every other
/// failure ends the setup, a refusal of the shell as unsupported.
pub proof fn only_the_handshake_may_fail(step: SetupStep, shown: Seq<char>)
    ensures
        setup_after(SetupStep::FindModule) == SetupStep::RegisterClass,
        setup_after(SetupStep::RegisterClass) == SetupStep::CreateWindow,
        setup_after(SetupStep::CreateWindow) == SetupStep::CheckWindow,
        setup_after(SetupStep::CheckWindow) == SetupStep::AddIcon,
        setup_after(SetupStep::AddIcon) == SetupStep::SetVersion,
        setup_after(SetupStep::SetVersion) == SetupStep::Ready,
        setup_after(SetupStep::Ready) == SetupStep::Ready,
        setup_failure(step, shown) is None <==> step == SetupStep::SetVersion || step
            == SetupStep::Ready,
        setup_failure(step, shown) matches Some(error) ==> (error is NotSupported <==> step
            == SetupStep::AddIcon) && (error is NotSupported || error is Internal),
        step == SetupStep::FindModule || step == SetupStep::CreateWindow ==> finishes_with(
            setup_failure(step, shown)->0->Internal_0,
            shown,
        ),
{
    parts_are_found_where_they_stand("GetModuleHandleW failed: "@, shown, Seq::empty());
    parts_are_found_where_they_stand("could not create the tray window: "@, shown, Seq::empty());
}

/// A host is answered with success exactly when its worker registered the icon;
/// a failed worker is answered as unsupported, in its own words.
pub proof fn only_a_ready_worker_succeeds(readiness: Readiness)
    ensures
        readiness_error(readiness) is None <==> readiness is Ready,
        readiness matches Readiness::Failed(message) ==> readiness_error(readiness) == Some(
            ErrorView::NotSupported(message@),
        ),
        readiness matches Readiness::NotStarted(shown) ==> (readiness_error(readiness) matches Some(
            error,
        ) && error is Internal && finishes_with(error->Internal_0, shown@)),
        readiness is TimedOut ==> (readiness_error(readiness) matches Some(error)
            && error is Internal),
{
    if let Readiness::NotStarted(shown) = readiness {
        parts_are_found_where_they_stand(
            "could not spawn the tray worker: "@,
            shown@,
            Seq::empty(),
        );
    }
}

/// Whatever is chosen in the popup that was shown, at any depth, calls the
/// callback that the row itself carries: the popup, the table that is kept with
/// it and the rows of the menu agree.
pub proof fn a_shown_popup_leads_home(
    worker: &mut Worker,
    store: MenuStore,
    rows: Option<Vec<PopupRow>>,
    menu: MenuRef,
    depth: nat,
)
    requires
        call_ensures(Worker::show_menu, (worker, &store), rows),
        old(worker)@.shared.menu == Some(menu),
        nests_within(store@, menu, depth),
        listing(store@, menu, true).len() + listing(store@, menu, false).len() <= u16::MAX,
    ensures
        rows matches Some(planned) && leads_home(
            store@,
            menu_at(store@, menu).rows,
            popup_rows_view(planned@),
            final(worker)@.table,
            (depth - 1) as nat,
        ),
        final(worker)@.shared == old(worker)@.shared,
        final(worker)@.icon == old(worker)@.icon,
{
    a_shown_menu_leads_home(store@, menu, depth);
}

/// A choice is a click on the row of its id; 0 is a menu that was dismissed.
pub proof fn a_choice_is_a_click_on_its_row(
    worker: Worker,
    actions: ActionStore,
    reported: i32,
    command_id: u16,
    chosen: Option<TrayCall>,
    commanded: Option<TrayCall>,
)
    requires
        call_ensures(Worker::chosen, (&worker, &actions, reported), chosen),
        call_ensures(Worker::on_command, (&worker, &actions, command_id), commanded),
    ensures
        commanded == call_of(actions@, resolved(worker@.table, command_id), TrayEvent::Click),
        command_id == 0 ==> commanded is None,
        reported as u16 == command_id ==> chosen == commanded,
        0 <= reported <= 0xffff ==> chosen == call_of(
            actions@,
            resolved(worker@.table, reported as u16),
            TrayEvent::Click,
        ),
{
}

/// Without a menu nothing is shown, and the worker stays as it is.
pub proof fn no_menu_is_no_popup(
    worker: &mut Worker,
    store: MenuStore,
    rows: Option<Vec<PopupRow>>,
)
    requires
        call_ensures(Worker::show_menu, (worker, &store), rows),
        old(worker)@.shared.menu is None,
    ensures
        rows is None,
        final(worker)@ == old(worker)@,
{
}

/// An icon that the shell accepted is the worker's from then on; a refused one is
/// handed back to be destroyed.
pub proof fn an_accepted_icon_is_kept(
    worker: &mut Worker,
    made: Option<usize>,
    accepted: bool,
    unused: Option<usize>,
)
    requires
        call_ensures(Worker::added, (worker, made, accepted), unused),
    ensures
        accepted ==> final(worker)@.icon == made && final(worker)@.registered && unused is None,
        !accepted ==> final(worker)@ == old(worker)@ && unused == made,
        final(worker)@.shared == old(worker)@.shared,
        final(worker)@.window == old(worker)@.window,
{
}

/// After an accepted update the shell shows the icon that was made, if there is
/// one to show, and the previous one is destroyed once it is replaced; a refused
/// update changes nothing and destroys nothing.
pub proof fn an_update_retires_the_replaced_icon(
    worker: &mut Worker,
    about: Refresh,
    made: Option<usize>,
    accepted: bool,
    retired: Option<usize>,
)
    requires
        call_ensures(Worker::refreshed, (worker, about, made, accepted), retired),
    ensures
        !accepted ==> final(worker)@ == old(worker)@ && retired is None,
        accepted ==> {
            let shows = old(worker)@.shared.visible && old(worker)@.shared.icon is Some && made
                is Some;
            &&& shows ==> final(worker)@.icon == made
            &&& !shows ==> final(worker)@.icon == old(worker)@.icon
            &&& retired == (if final(worker)@.icon == old(worker)@.icon {
                None
            } else {
                old(worker)@.icon
            })
            &&& about == Refresh::Visibility ==> final(worker)@.visible
                == old(worker)@.shared.visible && final(worker)@.tooltip == old(worker)@.tooltip
            &&& about == Refresh::Contents ==> final(worker)@.tooltip
                == old(worker)@.shared.tooltip && final(worker)@.last_icon
                == old(worker)@.shared.icon && final(worker)@.visible == old(worker)@.visible
        },
{
}

/// A tick mirrors the host and asks for exactly what the shell does not show yet;
/// without a host the mirror stays as it is.
pub proof fn a_tick_mirrors_the_host(
    worker: &mut Worker,
    host: Option<&TrayIconState>,
    tick: Tick,
)
    requires
        call_ensures(Worker::on_tick, (worker, host), tick),
    ensures
        host matches Some(state) ==> {
            let shared = final(worker)@.shared;
            &&& shared.tooltip == state.tooltip@ && shared.visible == state.visible
            &&& shared.menu == state.menu && shared.icon == state@.icon
            &&& tick == Tick::Stop <==> state.shutdown
            &&& !state.shutdown ==> tick == (Tick::Continue {
                visibility: state.visible != old(worker)@.visible,
                contents: !(state.tooltip@ == old(worker)@.tooltip && state@.icon
                    == old(worker)@.last_icon),
                menu: state.menu != old(worker)@.menu,
            })
        },
        host is None ==> final(worker)@ == old(worker)@,
        final(worker)@.icon == old(worker)@.icon,
        final(worker)@.table == old(worker)@.table,
        final(worker)@.registered == old(worker)@.registered,
{
}

/// A new table is made of the menu that is attached, and of nothing without one.
pub proof fn a_table_is_made_of_the_attached_menu(worker: &mut Worker, store: MenuStore)
    requires
        call_ensures(Worker::rebuild_menu, (worker, &store), ()),
    ensures
        final(worker)@.menu == old(worker)@.shared.menu,
        old(worker)@.shared.menu is None ==> final(worker)@.table.len() == 0,
        old(worker)@.shared.menu matches Some(menu) ==> final(worker)@.table == listing(
            store@,
            menu,
            true,
        ),
        final(worker)@.shared == old(worker)@.shared,
        final(worker)@.icon == old(worker)@.icon,
{
}

/// An event is reported to its own handler, and a callback is understood by the
/// icon it names and the mouse message it carries.
pub proof fn a_worker_reports_what_happened(
    worker: Worker,
    actions: ActionStore,
    clicked: Option<TrayCall>,
    doubled: Option<TrayCall>,
)
    requires
        call_ensures(Worker::dispatch, (&worker, &actions, TrayEvent::Click), clicked),
        call_ensures(Worker::dispatch, (&worker, &actions, TrayEvent::DoubleClick), doubled),
    ensures
        clicked == call_of(actions@, worker@.shared.on_click, TrayEvent::Click),
        doubled == call_of(actions@, worker@.shared.on_double_click, TrayEvent::DoubleClick),
{
}

/// Tearing down hands out what is there to be released, once.
pub proof fn a_teardown_releases_everything_once(
    worker: &mut Worker,
    again: &mut Worker,
    plan: Teardown,
    rest: Teardown,
)
    requires
        call_ensures(Worker::teardown, (worker,), plan),
        call_ensures(Worker::teardown, (again,), rest),
        old(again)@ == final(worker)@,
    ensures
        plan.destroy_icon == old(worker)@.icon,
        plan.destroy_window == old(worker)@.window,
        plan.unregister == (if old(worker)@.registered {
            old(worker)@.window
        } else {
            None
        }),
        rest.destroy_icon is None && rest.destroy_window is None && rest.unregister is None,
{
}

/// The message loop goes on for positive results alone; a menu opens where the
/// cursor is, or in the corner; and a class that is already registered will do.
pub proof fn a_window_is_run_as_win32_expects(
    result: i32,
    pumping: bool,
    cursor: Option<(i32, i32)>,
    point: (i32, i32),
    atom: u16,
    last_error: u32,
    available: bool,
)
    requires
        call_ensures(keeps_pumping, (result,), pumping),
        call_ensures(menu_point, (cursor,), point),
        call_ensures(class_is_available, (atom, last_error), available),
    ensures
        pumping <==> result >= 1,
        cursor matches Some(at) ==> point == at,
        cursor is None ==> point == (0i32, 0i32),
        available <==> atom != 0 || last_error == 1410,
{
}

/// A registered icon shows what was asked for, under its name, and publishes every
/// tray feature.
pub proof fn a_created_icon_shows_what_was_asked_for(
    config: TrayIconConfig,
    res: Result<TrayIcon, UdaError>,
    feature: TrayFeature,
)
    requires
        call_ensures(WindowsTrayManager::create, (&WindowsTrayManager, config), res),
    ensures
        res matches Ok(icon) && {
            &&& icon.spec_name() == config.name@
            &&& icon.state().visible && !icon.state().shutdown
            &&& icon.state().menu == config.menu
            &&& icon.state().icon == config@.icon
            &&& icon.state().tooltip.is_prefix_of(config.tooltip@)
            &&& config.tooltip@.len() <= 80 ==> icon.state().tooltip == config.tooltip@
                && icon.state().level(feature) == SupportLevel::Full
        },
{
    if let Ok(icon) = res {
        assert(({
            let all = WINDOWS_TRAY_FLAGS;
            &&& all & Capability::SYSTEM_TRAY == Capability::SYSTEM_TRAY
            &&& all & Capability::TRAY_CLICK == Capability::TRAY_CLICK
            &&& all & Capability::TRAY_DOUBLE_CLICK == Capability::TRAY_DOUBLE_CLICK
            &&& all & Capability::TRAY_CONTEXT_MENU == Capability::TRAY_CONTEXT_MENU
            &&& all & Capability::TRAY_CHECKBOX == Capability::TRAY_CHECKBOX
            &&& all & Capability::TRAY_DYNAMIC_MENU == Capability::TRAY_DYNAMIC_MENU
        })) by (bit_vector);
    }
}

/// A request about an icon needs its window; it carries the icon that was made,
/// the hover text and, for a change, whether the icon is hidden.
pub proof fn a_worker_asks_for_its_icon(
    worker: Worker,
    made: Option<usize>,
    added: Option<IconRequest>,
    changed: Option<IconRequest>,
    source: Option<&TrayIconSource>,
)
    requires
        call_ensures(Worker::add_request, (&worker, made), added),
        call_ensures(Worker::refresh_request, (&worker, made), changed),
        call_ensures(Worker::source_to_show, (&worker,), source),
    ensures
        added is Some <==> worker@.window is Some,
        changed is Some <==> worker@.window is Some,
        added matches Some(r) ==> r.window == worker@.window->0 && r.icon_id == worker@.icon_id
            && r.icon == made && r.tip@ == tip_of(hover_text(worker@.shared)) && r.callback_message
            == 0x8000 && r.state == 0,
        changed matches Some(r) ==> {
            &&& r.window == worker@.window->0 && r.icon_id == worker@.icon_id
            &&& r.tip@ == tip_of(hover_text(worker@.shared))
            &&& r.state_mask == 1
            &&& worker@.shared.visible ==> r.state == 0
            &&& !worker@.shared.visible ==> r.state == 1 && r.icon is None
            &&& worker@.shared.visible && worker@.shared.icon is Some && made is Some ==> r.icon
                == made
        },
        source is Some <==> worker@.shared.visible && worker@.shared.icon is Some,
        source matches Some(s) ==> worker@.shared.icon == Some(s@),
{
}

/// A callback is understood by the icon its first parameter names and the mouse
/// message in its second.
pub proof fn a_callback_is_understood(
    worker: Worker,
    wparam: usize,
    lparam: isize,
    callback: Callback,
)
    requires
        call_ensures(Worker::on_callback, (&worker, wparam, lparam), callback),
    ensures
        wparam as u32 != worker@.icon_id ==> callback == Callback::Ignore,
        wparam as u32 == worker@.icon_id ==> {
            &&& lparam as u32 == 0x202 ==> callback == Callback::Report(TrayEvent::Click)
            &&& lparam as u32 == 0x203 ==> callback == Callback::Report(TrayEvent::DoubleClick)
            &&& lparam as u32 == 0x204 || lparam as u32 == 0x205 || lparam as u32 == 0x7b
                ==> callback == Callback::ShowMenu
        },
{
}

/// A setup goes on where a step went well and where the handshake failed, and ends
/// with an error everywhere else; a host is answered by what became of its worker.
pub proof fn a_setup_ends_where_it_fails(
    step: SetupStep,
    failure: Option<&str>,
    res: Result<SetupStep, UdaError>,
    readiness: Readiness,
    answer: Result<(), UdaError>,
)
    requires
        call_ensures(SetupStep::after, (step, failure), res),
        call_ensures(WindowsTrayManager::worker_answer, (readiness,), answer),
    ensures
        res is Ok <==> failure is None || step == SetupStep::SetVersion || step
            == SetupStep::Ready,
        res matches Ok(next) ==> next == setup_after(step),
        res matches Err(error) ==> (error@ is NotSupported <==> step == SetupStep::AddIcon),
        answer is Ok <==> readiness is Ready,
        readiness matches Readiness::Failed(message) ==> (answer matches Err(error) && error@
            == ErrorView::NotSupported(message@)),
{
}

/// Two icons are equal when both are absent or both are the same image, and two
/// menus when they are the very same one.
pub proof fn only_the_same_is_equal(
    left: Option<&TrayIconSource>,
    right: Option<&TrayIconSource>,
    icons: bool,
    a: Option<MenuRef>,
    b: Option<MenuRef>,
    menus: bool,
)
    requires
        call_ensures(icons_equal, (left, right), icons),
        call_ensures(menus_equal, (a, b), menus),
    ensures
        left is None && right is None ==> icons,
        left is Some != right is Some ==> !icons,
        left is Some && right is Some ==> (icons <==> left->0@ == right->0@),
        menus <==> a == b,
{
}

} // verus!
