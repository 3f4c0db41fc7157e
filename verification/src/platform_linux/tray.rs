//! The StatusNotifierItem side of a Linux tray icon.

use crate::capability::{Capability, SupportLevel};
use crate::error::{ErrorView, UdaError};
use crate::platform_linux::dbusmenu_export::MENU_PATH;
use crate::text::{
    begins_with, chars_of, decimal, finishes_with, is_blank, is_space,
    parts_are_found_where_they_stand, same, show, trim, trimmed, trimmed_is_empty_iff_blank,
    trimming_undoes_padding,
};
use crate::tray::event::{call_of, ActionStore, TrayAction, TrayCall, TrayEvent};
use crate::tray::icon::{
    backend_support_level, host_view, published_level, seeded, source_view, ConfigView, StateView,
    TrayFeature, TrayIcon, TrayIconConfig, TrayIconInner, TrayIconState, TrayManager,
};
use crate::tray::item::MenuRef;
use crate::tray::pixels::{
    only_valid_buffers_give_pixels, pixels_keep_their_place_and_colour, transcode, transcoded,
    RowOrder,
};
use crate::tray::source::{same_bytes, SourceView, TrayIconSource};
use crate::tray::tooltip::{safe_tooltip, sanitize_tooltip};
use crate::DEFAULT_APP_NAME;
use vstd::prelude::*;

verus! {

/// Window inside which two activations are reported as a double click, in
/// nanoseconds. The protocol itself has no double-click signal.
pub const DOUBLE_CLICK_WINDOW: u64 = 500_000_000;

/// How often the worker checks whether the host still owns its icon, in
/// nanoseconds.
pub const SHUTDOWN_POLL_INTERVAL: u64 = 200_000_000;

/// Object path exporting [`StatusNotifierItemInterface`].
pub const SNI_PATH: &'static str = "/StatusNotifierItem";

/// Well-known name of the watcher that owns the tray area.
pub const WATCHER_SERVICE: &'static str = "org.kde.StatusNotifierWatcher";

/// Well-known name of the watcher to ask when the KDE one is absent.
pub const WATCHER_FALLBACK_SERVICE: &'static str = "org.freedesktop.StatusNotifierWatcher";

/// Object path of the watcher.
pub const WATCHER_PATH: &'static str = "/StatusNotifierWatcher";

/// Interface carrying `RegisterStatusNotifierItem` on the KDE watcher.
pub const WATCHER_INTERFACE: &'static str = "org.kde.StatusNotifierWatcher";

/// Freedesktop fallback watcher interface, used when the KDE one is absent.
pub const WATCHER_FALLBACK_INTERFACE: &'static str = "org.freedesktop.StatusNotifierWatcher";

/// Icon-theme name shown for an icon that cannot be used.
pub const MISSING_ICON: &'static str = "image-missing";

// ---------------------------------------------------------------------------
// Icon transcoding
// ---------------------------------------------------------------------------
/// The icon bytes advertised to a shell.
#[derive(Debug, PartialEq, Eq)]
pub enum IconPayload {
    /// No icon at all.
    Absent,
    /// A freedesktop icon-theme name or a file path.
    Name(String),
    /// Raw bottom-up 32bpp rows as `IconPixmap` expects; byte order per pixel
    /// is B, G, R, A.
    Pixmap(Vec<(i32, i32, Vec<u8>)>),
}

/// What an [`IconPayload`] says.
#[verifier::ext_equal]
pub enum PayloadView {
    Absent,
    Name(Seq<char>),
    Pixmap(Seq<(i32, i32, Seq<u8>)>),
}

/// What pixmaps hold.
pub open spec fn pixmap_view(pixmap: Seq<(i32, i32, Vec<u8>)>) -> Seq<(i32, i32, Seq<u8>)> {
    pixmap.map_values(|image: (i32, i32, Vec<u8>)| (image.0, image.1, image.2@))
}

impl View for IconPayload {
    type V = PayloadView;

    open spec fn view(&self) -> PayloadView {
        match *self {
            IconPayload::Absent => PayloadView::Absent,
            IconPayload::Name(name) => PayloadView::Name(name@),
            IconPayload::Pixmap(pixmap) => PayloadView::Pixmap(pixmap_view(pixmap@)),
        }
    }
}

/// The pixmap of a valid pixel buffer.
pub open spec fn argb_pixmap(source: SourceView) -> Option<Seq<(i32, i32, Seq<u8>)>> {
    match source {
        SourceView::Rgba { width, height, .. } => match transcoded(source, RowOrder::BottomUp) {
            Some(bytes) => Some(seq![(width as i32, height as i32, bytes)]),
            None => None,
        },
        SourceView::Path(_) => None,
    }
}

/// The payload of a source: a path travels as a theme name, pixels are
/// transcoded, and what fails validation is shown as missing.
pub open spec fn payload_of(source: SourceView) -> PayloadView {
    if !source.is_valid() {
        PayloadView::Name(MISSING_ICON@)
    } else {
        match source {
            SourceView::Path(path) => PayloadView::Name(trimmed(path)),
            SourceView::Rgba { .. } => PayloadView::Pixmap(argb_pixmap(source)->0),
        }
    }
}

/// The payload of an icon that may not be set.
pub open spec fn optional_payload(source: Option<SourceView>) -> PayloadView {
    match source {
        Some(source) => payload_of(source),
        None => PayloadView::Absent,
    }
}

/// Convert straight RGBA top-down bytes into bottom-up 32bpp rows (B, G, R, A).
///
/// Returns `None` when the source is not an RGBA buffer or does not match its
/// declared dimensions.
pub fn rgba_to_argb(source: &TrayIconSource) -> (pixmap: Option<Vec<(i32, i32, Vec<u8>)>>)
    ensures
        pixmap is Some <==> argb_pixmap(source@) is Some,
        pixmap matches Some(p) ==> argb_pixmap(source@) == Some(pixmap_view(p@)),
{
    match transcode(source, RowOrder::BottomUp) {
        None => None,
        Some(bytes) => match source {
            TrayIconSource::Path(_) => None,
            TrayIconSource::Rgba { width, height, .. } => {
                let mut pixmap: Vec<(i32, i32, Vec<u8>)> = Vec::new();
                pixmap.push((*width as i32, *height as i32, bytes));
                proof {
                    assert(pixmap_view(pixmap@) =~= argb_pixmap(source@)->0);
                }
                Some(pixmap)
            },
        },
    }
}

/// A copy of pixmaps.
fn copy_pixmap(pixmap: &Vec<(i32, i32, Vec<u8>)>) -> (copy: Vec<(i32, i32, Vec<u8>)>)
    ensures
        pixmap_view(copy@) == pixmap_view(pixmap@),
{
    let mut copy: Vec<(i32, i32, Vec<u8>)> = Vec::new();
    let mut i: usize = 0;
    while i < pixmap.len()
        invariant
            i <= pixmap.len(),
            copy@.len() == i,
            forall|j: int|
                0 <= j < i ==> #[trigger] pixmap_view(copy@)[j] == pixmap_view(pixmap@)[j],
        decreases pixmap.len() - i,
    {
        let ghost before = copy@;
        let bytes = pixmap[i].2.clone();
        proof {
            assert(bytes@ =~= pixmap@[i as int].2@);
        }
        copy.push((pixmap[i].0, pixmap[i].1, bytes));
        proof {
            assert forall|j: int| 0 <= j < i + 1 implies #[trigger] pixmap_view(copy@)[j]
                == pixmap_view(pixmap@)[j] by {
                if j < i {
                    assert(pixmap_view(before)[j] == pixmap_view(pixmap@)[j]);
                }
            }
        }
        i = i + 1;
    }
    proof {
        assert(pixmap_view(copy@) =~= pixmap_view(pixmap@));
    }
    copy
}

/// Whether two pixmaps hold the same images.
fn same_pixmap(a: &Vec<(i32, i32, Vec<u8>)>, b: &Vec<(i32, i32, Vec<u8>)>) -> (yes: bool)
    ensures
        yes == (pixmap_view(a@) == pixmap_view(b@)),
{
    if a.len() != b.len() {
        proof {
            assert(pixmap_view(a@).len() != pixmap_view(b@).len());
        }
        return false;
    }
    let mut i: usize = 0;
    while i < a.len()
        invariant
            i <= a.len(),
            a.len() == b.len(),
            forall|j: int| 0 <= j < i ==> #[trigger] pixmap_view(a@)[j] == pixmap_view(b@)[j],
        decreases a.len() - i,
    {
        if a[i].0 != b[i].0 || a[i].1 != b[i].1 || !same_bytes(&a[i].2, &b[i].2) {
            proof {
                assert(pixmap_view(a@)[i as int] != pixmap_view(b@)[i as int]);
            }
            return false;
        }
        i = i + 1;
    }
    proof {
        assert(pixmap_view(a@) =~= pixmap_view(b@));
    }
    true
}

impl Clone for IconPayload {
    fn clone(&self) -> (copy: Self)
        ensures
            copy@ == self@,
    {
        match self {
            IconPayload::Absent => IconPayload::Absent,
            IconPayload::Name(name) => IconPayload::Name(name.clone()),
            IconPayload::Pixmap(pixmap) => IconPayload::Pixmap(copy_pixmap(pixmap)),
        }
    }
}

impl IconPayload {
    /// Derive the payload from a [`TrayIconSource`].
    pub fn from_source(source: &TrayIconSource) -> (payload: Self)
        ensures
            payload@ == payload_of(source@),
    {
        if source.validate().is_err() {
            return IconPayload::Name(MISSING_ICON.to_owned());
        }
        match source {
            TrayIconSource::Path(path) => IconPayload::Name(trim(path.as_str()).to_owned()),
            TrayIconSource::Rgba { .. } => match rgba_to_argb(source) {
                Some(pixmap) => IconPayload::Pixmap(pixmap),
                None => IconPayload::Name(MISSING_ICON.to_owned()),
            },
        }
    }

    /// The payload of an icon that may not be set.
    fn from_optional(source: &Option<TrayIconSource>) -> (payload: Self)
        ensures
            payload@ == optional_payload(source_view(*source)),
    {
        match source {
            Some(source) => IconPayload::from_source(source),
            None => IconPayload::Absent,
        }
    }

    /// Whether two payloads show the same icon.
    pub fn same_as(&self, other: &IconPayload) -> (yes: bool)
        ensures
            yes == (self@ == other@),
    {
        match (self, other) {
            (IconPayload::Absent, IconPayload::Absent) => true,
            (IconPayload::Name(left), IconPayload::Name(right)) => same(
                left.as_str(),
                right.as_str(),
            ),
            (IconPayload::Pixmap(left), IconPayload::Pixmap(right)) => same_pixmap(left, right),
            _ => false,
        }
    }
}

/// An icon with a path always has a name to show, never an empty one.
pub proof fn a_path_icon_has_a_name(path: Seq<char>)
    ensures
        payload_of(SourceView::Path(path)) matches PayloadView::Name(name) && name.len() > 0,
{
    trimmed_is_empty_iff_blank(path);
    reveal_strlit("image-missing");
}

// ---------------------------------------------------------------------------
// Shared worker state
// ---------------------------------------------------------------------------
/// The state the D-Bus worker serves: a mirror of what the host set.
#[derive(Debug)]
pub struct TrayShared {
    /// Application name; also the item's id.
    pub name: String,
    /// Current tooltip.
    pub tooltip: String,
    /// Current icon payload.
    pub icon: IconPayload,
    /// Whether the item is shown.
    pub visible: bool,
    /// The live menu, when one is attached.
    pub menu: Option<MenuRef>,
    /// Left-click handler.
    pub on_click: Option<TrayAction>,
    /// Double-click handler, fed by the synthesised [`TrayEvent::DoubleClick`].
    pub on_double_click: Option<TrayAction>,
    /// When an activation last arrived, for double-click synthesis.
    pub last_activate: Option<u64>,
}

/// What a [`TrayShared`] says.
#[verifier::ext_equal]
pub struct SharedView {
    pub name: Seq<char>,
    pub tooltip: Seq<char>,
    pub icon: PayloadView,
    pub visible: bool,
    pub menu: Option<MenuRef>,
    pub on_click: Option<TrayAction>,
    pub on_double_click: Option<TrayAction>,
    pub last_activate: Option<u64>,
}

impl View for TrayShared {
    type V = SharedView;

    open spec fn view(&self) -> SharedView {
        SharedView {
            name: self.name@,
            tooltip: self.tooltip@,
            icon: self.icon@,
            visible: self.visible,
            menu: self.menu,
            on_click: self.on_click,
            on_double_click: self.on_double_click,
            last_activate: self.last_activate,
        }
    }
}

impl SharedView {
    /// A visible icon without anything else.
    pub open spec fn fresh() -> SharedView {
        SharedView {
            name: Seq::empty(),
            tooltip: Seq::empty(),
            icon: PayloadView::Absent,
            visible: true,
            menu: None,
            on_click: None,
            on_double_click: None,
            last_activate: None,
        }
    }

    /// The mirror of a registration: the tooltip within its ceiling, no handlers.
    pub open spec fn of_config(config: ConfigView) -> SharedView {
        SharedView {
            name: config.name,
            tooltip: safe_tooltip(config.tooltip),
            icon: optional_payload(config.icon),
            visible: true,
            menu: config.menu,
            on_click: None,
            on_double_click: None,
            last_activate: None,
        }
    }

    /// The mirror after copying what the host set.
    pub open spec fn synced(self, host: Option<StateView>) -> SharedView {
        match host {
            Some(state) => SharedView {
                tooltip: state.tooltip,
                icon: optional_payload(state.icon),
                menu: state.menu,
                visible: state.visible,
                ..self
            },
            None => self,
        }
    }
}

impl Default for TrayShared {
    /// A registered icon is visible until the host hides it.
    fn default() -> (shared: Self)
        ensures
            shared@ == SharedView::fresh(),
    {
        TrayShared {
            name: String::new(),
            tooltip: String::new(),
            icon: IconPayload::Absent,
            visible: true,
            menu: None,
            on_click: None,
            on_double_click: None,
            last_activate: None,
        }
    }
}

/// The values an item property getter needs.
#[derive(Debug)]
pub struct ItemSnapshot {
    pub name: String,
    pub tooltip: String,
    pub icon: IconPayload,
    pub visible: bool,
}

impl TrayShared {
    /// Copy the host-visible state into the mirror; without a host nothing
    /// changes.
    pub fn sync_from(&mut self, host: Option<&TrayIconState>)
        ensures
            final(self)@ == old(self)@.synced(host_view(host)),
    {
        if let Some(state) = host {
            self.tooltip = state.tooltip.clone();
            self.icon = IconPayload::from_optional(&state.icon);
            self.menu = state.menu;
            self.visible = state.visible;
        }
    }

    /// Adopt the values collected from a config at registration time. The
    /// tooltip is clamped to its ceiling.
    pub fn from_config(config: &TrayIconConfig) -> (shared: Self)
        ensures
            shared@ == SharedView::of_config(config@),
    {
        TrayShared {
            name: config.name.clone(),
            tooltip: sanitize_tooltip(config.tooltip.as_str()).to_owned(),
            icon: IconPayload::from_optional(&config.icon),
            visible: true,
            menu: config.menu,
            on_click: None,
            on_double_click: None,
            last_activate: None,
        }
    }

    /// The mirror that a worker serves from registration on: the values of the
    /// config and its handlers.
    pub fn registered(config: &TrayIconConfig) -> (shared: Self)
        ensures
            shared@ == (SharedView {
                on_click: config.on_click,
                on_double_click: config.on_double_click,
                ..SharedView::of_config(config@)
            }),
    {
        let mut shared = TrayShared::from_config(config);
        shared.on_click = config.on_click;
        shared.on_double_click = config.on_double_click;
        shared
    }

    /// A snapshot suitable for the item property getters.
    pub fn item_snapshot(&self) -> (snapshot: ItemSnapshot)
        ensures
            snapshot.name@ == self.name@,
            snapshot.tooltip@ == self.tooltip@,
            snapshot.icon@ == self.icon@,
            snapshot.visible == self.visible,
    {
        ItemSnapshot {
            name: self.name.clone(),
            tooltip: self.tooltip.clone(),
            icon: self.icon.clone(),
            visible: self.visible,
        }
    }
}

// ---------------------------------------------------------------------------
// org.kde.StatusNotifierItem
// ---------------------------------------------------------------------------
/// What a shell has to be told after the mirror was brought up to date.
#[derive(Debug, Clone, Copy, PartialEq, Eq, Structural)]
pub struct Changes {
    /// The tooltip changed: emit `NewTitle`.
    pub title: bool,
    /// The icon changed: emit `NewIcon`.
    pub icon: bool,
    /// The visibility changed: emit `NewStatus` with the current status.
    pub status: bool,
    /// Another menu is attached: announce its layout.
    pub layout: bool,
}

/// What differs between two states of the mirror.
pub open spec fn differences(before: SharedView, after: SharedView) -> Changes {
    Changes {
        title: before.tooltip != after.tooltip,
        icon: before.icon != after.icon,
        status: before.visible != after.visible,
        layout: before.menu != after.menu,
    }
}

/// The status word of an item: a hidden icon is passive, a visible one active.
pub open spec fn status_word(visible: bool) -> Seq<char> {
    if visible {
        "Active"@
    } else {
        "Passive"@
    }
}

/// Whether an activation at `now` completes a double click.
pub open spec fn completes_double_click(last: Option<u64>, now: u64) -> bool {
    last matches Some(last) && now - last <= DOUBLE_CLICK_WINDOW
}

/// The event an activation at `now` stands for.
pub open spec fn activation_event(last: Option<u64>, now: u64) -> TrayEvent {
    if completes_double_click(last, now) {
        TrayEvent::DoubleClick
    } else {
        TrayEvent::Click
    }
}

/// The handler of an event.
pub open spec fn handler_of(shared: SharedView, event: TrayEvent) -> Option<TrayAction> {
    match event {
        TrayEvent::Click => shared.on_click,
        TrayEvent::DoubleClick => shared.on_double_click,
    }
}

/// The item interface exported at [`SNI_PATH`].
#[derive(Debug)]
pub struct StatusNotifierItemInterface {
    shared: TrayShared,
}

impl StatusNotifierItemInterface {
    /// The state the item serves.
    pub closed spec fn view(self) -> SharedView {
        self.shared@
    }

    /// Serve the given state.
    pub fn new(shared: TrayShared) -> (item: Self)
        ensures
            item@ == shared@,
    {
        StatusNotifierItemInterface { shared }
    }

    /// The state the item serves.
    pub fn shared(&self) -> (shared: &TrayShared)
        ensures
            shared@ == self@,
    {
        &self.shared
    }

    /// The state the item serves, open for changes.
    pub fn shared_mut(&mut self) -> (shared: &mut TrayShared)
        ensures
            shared@ == old(self)@,
            final(self)@ == final(shared)@,
    {
        &mut self.shared
    }

    /// Snapshot the state for a handler.
    pub fn snapshot(&self) -> (snapshot: ItemSnapshot)
        ensures
            snapshot.name@ == self@.name,
            snapshot.tooltip@ == self@.tooltip,
            snapshot.icon@ == self@.icon,
            snapshot.visible == self@.visible,
    {
        self.shared.item_snapshot()
    }

    /// Take an activation that arrived at `now`, in nanoseconds of a clock that
    /// does not go back.
    ///
    /// Two activations inside the double-click window are reported as a
    /// [`TrayEvent::DoubleClick`]; every other activation is a plain
    /// [`TrayEvent::Click`]. The window restarts with every activation. Returns
    /// the call to make, if a handler is registered for the event.
    pub fn dispatch_activation(&mut self, actions: &ActionStore, now: u64) -> (call: Option<
        TrayCall,
    >)
        ensures
            call == call_of(
                actions@,
                handler_of(old(self)@, activation_event(old(self)@.last_activate, now)),
                activation_event(old(self)@.last_activate, now),
            ),
            final(self)@ == (SharedView { last_activate: Some(now), ..old(self)@ }),
    {
        let double_click = match self.shared.last_activate {
            Some(last) => now <= last || now - last <= DOUBLE_CLICK_WINDOW,
            None => false,
        };
        self.shared.last_activate = Some(now);
        let (event, handler) = if double_click {
            (TrayEvent::DoubleClick, self.shared.on_double_click)
        } else {
            (TrayEvent::Click, self.shared.on_click)
        };
        actions.call(handler, event)
    }

    /// Whether an activation opens a menu instead of firing events.
    pub fn item_is_menu(&self) -> (yes: bool)
        ensures
            !yes,
    {
        false
    }

    /// The item category.
    pub fn category(&self) -> (category: &'static str)
        ensures
            category@ == "ApplicationStatus"@,
    {
        "ApplicationStatus"
    }

    /// Unique item id.
    pub fn id(&self) -> (id: String)
        ensures
            id@ == self@.name,
    {
        self.shared.name.clone()
    }

    /// Tooltip title line.
    pub fn title(&self) -> (title: String)
        ensures
            title@ == self@.tooltip,
    {
        self.shared.tooltip.clone()
    }

    /// Item status: a hidden icon is `"Passive"`, a visible one `"Active"`.
    pub fn status(&self) -> (status: &'static str)
        ensures
            status@ == status_word(self@.visible),
    {
        if self.shared.visible {
            "Active"
        } else {
            "Passive"
        }
    }

    /// Zero: the item has no X window (the Wayland case).
    pub fn window_id(&self) -> (id: u32)
        ensures
            id == 0,
    {
        0
    }

    /// Freedesktop icon-theme name; empty when a pixmap is supplied.
    pub fn icon_name(&self) -> (name: String)
        ensures
            name@ == self@.icon.name(),
    {
        match &self.shared.icon {
            IconPayload::Name(name) => name.clone(),
            _ => String::new(),
        }
    }

    /// Bottom-up B, G, R, A rows; none when a name is supplied.
    pub fn icon_pixmap(&self) -> (pixmap: Vec<(i32, i32, Vec<u8>)>)
        ensures
            pixmap_view(pixmap@) == self@.icon.pixmap(),
    {
        match &self.shared.icon {
            IconPayload::Pixmap(pixmap) => copy_pixmap(pixmap),
            _ => {
                let none: Vec<(i32, i32, Vec<u8>)> = Vec::new();
                proof {
                    assert(pixmap_view(none@) =~= Seq::empty());
                }
                none
            },
        }
    }

    /// Icon name, pixmap, title and description of the tooltip.
    pub fn tool_tip(&self) -> (tip: (String, Vec<(i32, i32, Vec<u8>)>, String, String))
        ensures
            tip.0@ == self@.icon.name(),
            pixmap_view(tip.1@) == self@.icon.pixmap(),
            tip.2@ == self@.tooltip,
            tip.3@.len() == 0,
    {
        (self.icon_name(), self.icon_pixmap(), self.shared.tooltip.clone(), String::new())
    }

    /// Object path of the menu.
    pub fn menu(&self) -> (path: &'static str)
        ensures
            path@ == MENU_PATH@,
    {
        MENU_PATH
    }

    /// Copy the host's state into the mirror and report what a shell has to be
    /// told.
    pub fn refresh(&mut self, host: Option<&TrayIconState>) -> (changes: Changes)
        ensures
            final(self)@ == old(self)@.synced(host_view(host)),
            changes == differences(old(self)@, final(self)@),
    {
        let tooltip = self.shared.tooltip.clone();
        let icon = self.shared.icon.clone();
        let visible = self.shared.visible;
        let menu = self.shared.menu;
        self.shared.sync_from(host);
        Changes {
            title: !same(tooltip.as_str(), self.shared.tooltip.as_str()),
            icon: !icon.same_as(&self.shared.icon),
            status: visible != self.shared.visible,
            layout: menu != self.shared.menu,
        }
    }
}

impl PayloadView {
    /// The icon name; empty unless the icon goes by a name.
    pub open spec fn name(self) -> Seq<char> {
        match self {
            PayloadView::Name(name) => name,
            _ => Seq::empty(),
        }
    }

    /// The pixmaps; none unless the icon is given in pixels.
    pub open spec fn pixmap(self) -> Seq<(i32, i32, Seq<u8>)> {
        match self {
            PayloadView::Pixmap(pixmap) => pixmap,
            _ => Seq::empty(),
        }
    }
}

/// An icon never goes by name and by pixels at once.
pub proof fn icon_name_and_pixmap_exclude_each_other(icon: PayloadView)
    ensures
        icon.name().len() == 0 || icon.pixmap().len() == 0,
{
}

/// Once the mirror agrees with the host, bringing it up to date again changes
/// nothing and tells the shell nothing.
pub proof fn refreshing_twice_reports_nothing_new(mirror: SharedView, host: Option<StateView>)
    ensures
        mirror.synced(host).synced(host) == mirror.synced(host),
        differences(mirror.synced(host), mirror.synced(host).synced(host)) == (Changes {
            title: false,
            icon: false,
            status: false,
            layout: false,
        }),
{
}

/// Bringing the mirror up to date never touches the name, the handlers or the
/// double-click clock.
pub proof fn refreshing_keeps_the_handlers(mirror: SharedView, host: Option<StateView>)
    ensures
        mirror.synced(host).name == mirror.name,
        mirror.synced(host).on_click == mirror.on_click,
        mirror.synced(host).on_double_click == mirror.on_double_click,
        mirror.synced(host).last_activate == mirror.last_activate,
{
}

/// A first activation is a click; the next is a double click exactly when it
/// comes within the window, however many came before.
pub proof fn activations_pair_up_inside_the_window(shared: SharedView, first: u64, second: u64)
    requires
        first <= second,
    ensures
        shared.last_activate is None ==> activation_event(shared.last_activate, first)
            == TrayEvent::Click,
        ({
            let after = SharedView { last_activate: Some(first), ..shared };
            activation_event(after.last_activate, second) == TrayEvent::DoubleClick <==> second
                - first <= DOUBLE_CLICK_WINDOW
        }),
{
}

// ---------------------------------------------------------------------------
// Worker lifecycle
// ---------------------------------------------------------------------------
/// Whether the host has let go of its icon. Without a host nothing can own the
/// icon, so serving it would leave a ghost entry in the tray.
pub fn host_released(host: Option<&TrayIconState>) -> (released: bool)
    ensures
        released == (host_view(host) matches Some(state) ==> state.shutdown),
{
    match host {
        Some(state) => state.shutdown,
        None => true,
    }
}

/// What the worker does next.
#[derive(Debug, Clone, Copy, PartialEq, Eq, Structural)]
pub enum WorkerStep {
    /// Open the session bus.
    Connect,
    /// Own the item's bus name.
    OwnName,
    /// Export the item.
    ExportItem,
    /// Export the menu.
    ExportMenu,
    /// Announce the item to a watcher.
    Announce,
    /// Serve the host until it lets go.
    Serve,
    /// Remove the item.
    RemoveItem,
    /// Remove the menu.
    RemoveMenu,
    /// Release the bus name.
    ReleaseName,
    /// Nothing is left to do.
    Stopped,
}

/// The step after `step`, which went well or not. A missing watcher is not fatal:
/// one that starts later can still find the item. While serving, a step goes well
/// as long as the host owns the icon.
pub open spec fn step_after(step: WorkerStep, well: bool) -> WorkerStep {
    match step {
        WorkerStep::Connect => if well {
            WorkerStep::OwnName
        } else {
            WorkerStep::Stopped
        },
        WorkerStep::OwnName => if well {
            WorkerStep::ExportItem
        } else {
            WorkerStep::Stopped
        },
        WorkerStep::ExportItem => if well {
            WorkerStep::ExportMenu
        } else {
            WorkerStep::Stopped
        },
        WorkerStep::ExportMenu => if well {
            WorkerStep::Announce
        } else {
            WorkerStep::Stopped
        },
        WorkerStep::Announce => WorkerStep::Serve,
        WorkerStep::Serve => if well {
            WorkerStep::Serve
        } else {
            WorkerStep::RemoveItem
        },
        WorkerStep::RemoveItem => WorkerStep::RemoveMenu,
        WorkerStep::RemoveMenu => WorkerStep::ReleaseName,
        WorkerStep::ReleaseName => WorkerStep::Stopped,
        WorkerStep::Stopped => WorkerStep::Stopped,
    }
}

impl WorkerStep {
    /// The step that follows when this one went well or not.
    pub fn after(self, well: bool) -> (next: WorkerStep)
        ensures
            next == step_after(self, well),
    {
        match self {
            WorkerStep::Connect => if well {
                WorkerStep::OwnName
            } else {
                WorkerStep::Stopped
            },
            WorkerStep::OwnName => if well {
                WorkerStep::ExportItem
            } else {
                WorkerStep::Stopped
            },
            WorkerStep::ExportItem => if well {
                WorkerStep::ExportMenu
            } else {
                WorkerStep::Stopped
            },
            WorkerStep::ExportMenu => if well {
                WorkerStep::Announce
            } else {
                WorkerStep::Stopped
            },
            WorkerStep::Announce => WorkerStep::Serve,
            WorkerStep::Serve => if well {
                WorkerStep::Serve
            } else {
                WorkerStep::RemoveItem
            },
            WorkerStep::RemoveItem => WorkerStep::RemoveMenu,
            WorkerStep::RemoveMenu => WorkerStep::ReleaseName,
            WorkerStep::ReleaseName => WorkerStep::Stopped,
            WorkerStep::Stopped => WorkerStep::Stopped,
        }
    }
}

/// Once serving ends, the item and the menu are removed before the name is
/// released, whatever goes wrong on the way.
pub proof fn objects_are_removed_before_the_name(a: bool, b: bool, c: bool)
    ensures
        step_after(WorkerStep::Serve, false) == WorkerStep::RemoveItem,
        step_after(WorkerStep::RemoveItem, a) == WorkerStep::RemoveMenu,
        step_after(step_after(WorkerStep::RemoveItem, a), b) == WorkerStep::ReleaseName,
        step_after(step_after(step_after(WorkerStep::RemoveItem, a), b), c) == WorkerStep::Stopped,
{
}

/// Whether the worker goes on serving: the host's channel is open and the host
/// still owns the icon.
pub fn keeps_serving(disconnected: bool, host: Option<&TrayIconState>) -> (well: bool)
    ensures
        well == (!disconnected && (host_view(host) matches Some(state) && !state.shutdown)),
{
    if disconnected {
        return false;
    }
    !host_released(host)
}

/// The watcher to ask after `failures` failed attempts: the KDE one first, then
/// the freedesktop one.
pub fn watcher_service(failures: usize) -> (service: Option<&'static str>)
    ensures
        failures == 0 ==> (service matches Some(name) && name@ == WATCHER_SERVICE@),
        failures == 1 ==> (service matches Some(name) && name@ == WATCHER_FALLBACK_SERVICE@),
        failures >= 2 ==> service is None,
{
    if failures == 0 {
        Some(WATCHER_SERVICE)
    } else if failures == 1 {
        Some(WATCHER_FALLBACK_SERVICE)
    } else {
        None
    }
}

/// The interface of the watcher to ask after `failures` failed attempts.
pub fn watcher_interface(failures: usize) -> (interface: Option<&'static str>)
    ensures
        failures == 0 ==> (interface matches Some(name) && name@ == WATCHER_INTERFACE@),
        failures == 1 ==> (interface matches Some(name) && name@ == WATCHER_FALLBACK_INTERFACE@),
        failures >= 2 ==> interface is None,
{
    if failures == 0 {
        Some(WATCHER_INTERFACE)
    } else if failures == 1 {
        Some(WATCHER_FALLBACK_INTERFACE)
    } else {
        None
    }
}

/// What a registration is answered when no watcher took the item.
pub fn no_watcher_error() -> (error: UdaError)
    ensures
        error@ == ErrorView::NotSupported(
            "no StatusNotifierWatcher is reachable on the session bus"@,
        ),
{
    UdaError::NotSupported("no StatusNotifierWatcher is reachable on the session bus".to_owned())
}

/// What a registration is answered when its worker could not be started.
pub fn spawn_error(shown: &str) -> (error: UdaError)
    ensures
        error@ == ErrorView::Internal("could not spawn the tray worker: "@ + shown@),
{
    UdaError::Internal("could not spawn the tray worker: ".to_owned().concat(shown))
}

// ---------------------------------------------------------------------------
// Manager
// ---------------------------------------------------------------------------
/// Whether a bus-name label may carry `c`.
pub open spec fn is_label_char(c: char) -> bool {
    ('a' <= c <= 'z') || ('A' <= c <= 'Z') || ('0' <= c <= '9') || c == '-' || c == '_'
}

/// `c`, or a dash when a bus-name label may not carry it.
pub open spec fn label_char(c: char) -> char {
    if is_label_char(c) {
        c
    } else {
        '-'
    }
}

/// The bus-name label of an application: every character that it may not carry
/// is replaced, and an empty name gives way to the default one.
pub open spec fn bus_label(app_name: Seq<char>) -> Seq<char> {
    if app_name.len() == 0 {
        DEFAULT_APP_NAME@
    } else {
        app_name.map_values(|c: char| label_char(c))
    }
}

/// The bus name of item `index` of process `pid`.
pub open spec fn bus_name_of(app_name: Seq<char>, pid: u32, index: u32) -> Seq<char> {
    "org.kde.StatusNotifierItem-"@ + bus_label(app_name) + "-"@ + decimal(pid as nat) + "-"@
        + decimal(index as nat)
}

/// A bus-name label carries no dot, no blank and nothing else that could end it.
pub proof fn bus_labels_are_safe(app_name: Seq<char>)
    ensures
        bus_label(app_name).len() > 0,
        forall|i: int|
            0 <= i < bus_label(app_name).len() ==> is_label_char(#[trigger] bus_label(app_name)[i]),
{
    reveal_strlit("UDA");
}

/// Two items of one process never share a bus name.
pub proof fn bus_names_are_unique(app_name: Seq<char>, pid: u32, a: u32, b: u32)
    requires
        a != b,
    ensures
        bus_name_of(app_name, pid, a) != bus_name_of(app_name, pid, b),
{
    let head = "org.kde.StatusNotifierItem-"@ + bus_label(app_name) + "-"@ + decimal(pid as nat)
        + "-"@;
    let left = bus_name_of(app_name, pid, a);
    let right = bus_name_of(app_name, pid, b);
    assert(left.skip(head.len() as int) =~= decimal(a as nat));
    assert(right.skip(head.len() as int) =~= decimal(b as nat));
    if left == right {
        crate::text::decimal_is_injective(a as nat, b as nat);
    }
}

/// The flags a registered item publishes. A double click is synthesised, so it is
/// not among them.
pub const LINUX_TRAY_FLAGS: u32 = Capability::SYSTEM_TRAY | Capability::TRAY_ICON
    | Capability::TRAY_TOOLTIP | Capability::TRAY_CLICK | Capability::TRAY_CONTEXT_MENU
    | Capability::TRAY_CHECKBOX | Capability::TRAY_DYNAMIC_MENU;

/// Copy the registration-time values into the host-visible state, so that the
/// host and the worker agree on what was registered. The tooltip is clamped to
/// its ceiling.
pub fn seed_host_state(inner: &mut TrayIconInner, config: &TrayIconConfig)
    ensures
        final(inner).name == old(inner).name,
        final(inner).state@ == seeded(old(inner).state@, config@),
{
    inner.seed(config);
}

/// A freshly registered icon and the mirror its worker serves agree: the first
/// refresh changes nothing.
pub proof fn registration_is_consistent(config: ConfigView, capabilities: u32)
    ensures
        ({
            let host = StateView {
                capabilities,
                ..seeded(StateView::fresh(), config)
            };
            SharedView::of_config(config).synced(Some(host)) == SharedView::of_config(config)
        }),
{
}

/// The Linux tray manager.
///
/// Cheap to construct: probing capabilities never touches the bus.
#[derive(Debug, Default, Clone, Copy)]
pub struct LinuxTrayManager;

impl LinuxTrayManager {
    /// A new manager.
    pub fn new() -> (manager: Self)
        ensures
            manager == LinuxTrayManager,
    {
        LinuxTrayManager
    }

    /// The capability set this backend publishes for a registered item.
    pub fn advertised_capabilities() -> (capabilities: Capability)
        ensures
            capabilities@ == LINUX_TRAY_FLAGS,
    {
        Capability::of(LINUX_TRAY_FLAGS)
    }

    /// The unique bus name of item `index` of process `pid`.
    pub fn bus_name(app_name: &str, pid: u32, index: u32) -> (name: String)
        ensures
            name@ == bus_name_of(app_name@, pid, index),
    {
        let chars = chars_of(app_name);
        let mut safe = String::new();
        let mut i: usize = 0;
        while i < chars.len()
            invariant
                i <= chars.len(),
                chars@ == app_name@,
                safe@ == app_name@.take(i as int).map_values(|c: char| label_char(c)),
            decreases chars.len() - i,
        {
            let c = chars[i];
            if ('a' <= c && c <= 'z') || ('A' <= c && c <= 'Z') || ('0' <= c && c <= '9') || c
                == '-' || c == '_' {
                safe.push(c);
            } else {
                safe.push('-');
            }
            i = i + 1;
            proof {
                assert(safe@ =~= app_name@.take(i as int).map_values(|c: char| label_char(c)));
            }
        }
        proof {
            assert(app_name@.take(i as int) =~= app_name@);
        }
        let label = if chars.len() == 0 {
            DEFAULT_APP_NAME.to_owned()
        } else {
            safe
        };
        "org.kde.StatusNotifierItem-".to_owned().concat(label.as_str()).concat("-").concat(
            show(pid as u64).as_str(),
        ).concat("-").concat(show(index as u64).as_str())
    }
}

impl TrayManager for LinuxTrayManager {
    /// The icon of a registration: seeded from the config, with the backend's
    /// capabilities published.
    fn create(&self, config: TrayIconConfig) -> (res: Result<TrayIcon, UdaError>)
        ensures
            res matches Ok(icon) && icon.spec_name() == config.name@ && icon.state() == (StateView {
                capabilities: LINUX_TRAY_FLAGS,
                ..seeded(StateView::fresh(), config@)
            }),
    {
        let mut inner = TrayIconInner::new(config.name.clone());
        seed_host_state(&mut inner, &config);
        inner.set_capabilities(LinuxTrayManager::advertised_capabilities());
        Ok(TrayIcon::from_inner(inner))
    }

    fn capabilities(&self) -> (capabilities: Capability)
        ensures
            capabilities@ == LINUX_TRAY_FLAGS,
    {
        LinuxTrayManager::advertised_capabilities()
    }

    fn support_level(&self, feature: TrayFeature) -> (level: SupportLevel)
        ensures
            level == linux_level(feature),
    {
        let capabilities = LinuxTrayManager::advertised_capabilities();
        proof {
            linux_flags_say_what_is_supported(capabilities, feature);
        }
        backend_support_level(capabilities, feature)
    }
}

/// What this backend supports: everything but a native double click.
pub open spec fn linux_level(feature: TrayFeature) -> SupportLevel {
    if feature == TrayFeature::DoubleClick {
        SupportLevel::Unsupported
    } else {
        SupportLevel::Full
    }
}

/// The published flags say what the backend supports, feature by feature, and
/// never more.
pub proof fn linux_flags_say_what_is_supported(capabilities: Capability, feature: TrayFeature)
    requires
        capabilities@ == LINUX_TRAY_FLAGS,
    ensures
        published_level(capabilities, feature) == linux_level(feature),
        capabilities.has(feature.flag()) <==> feature != TrayFeature::DoubleClick,
{
    assert(({
        let all = LINUX_TRAY_FLAGS;
        &&& all & Capability::SYSTEM_TRAY == Capability::SYSTEM_TRAY
        &&& all & Capability::TRAY_ICON == Capability::TRAY_ICON
        &&& all & Capability::TRAY_TOOLTIP == Capability::TRAY_TOOLTIP
        &&& all & Capability::TRAY_CLICK == Capability::TRAY_CLICK
        &&& all & Capability::TRAY_DOUBLE_CLICK != Capability::TRAY_DOUBLE_CLICK
        &&& all & Capability::TRAY_CONTEXT_MENU == Capability::TRAY_CONTEXT_MENU
        &&& all & Capability::TRAY_CHECKBOX == Capability::TRAY_CHECKBOX
        &&& all & Capability::TRAY_DYNAMIC_MENU == Capability::TRAY_DYNAMIC_MENU
    })) by (bit_vector);
}

// ---------------------------------------------------------------------------
// What a shell is shown
// ---------------------------------------------------------------------------
/// A path reaches the shell as the name it spells, without the white space around
/// it; a source that fails validation is shown as missing, and no source as none.
pub proof fn a_path_reaches_the_shell_as_its_name(
    left: Seq<char>,
    name: Seq<char>,
    right: Seq<char>,
    source: SourceView,
)
    requires
        is_blank(left),
        is_blank(right),
        name.len() > 0,
        !is_space(name[0]),
        !is_space(name.last()),
    ensures
        optional_payload(Some(SourceView::Path(left + name + right))) == PayloadView::Name(name),
        !source.is_valid() ==> optional_payload(Some(source)) == PayloadView::Name(
            "image-missing"@,
        ),
        optional_payload(None) == PayloadView::Absent,
        source.is_valid() ==> (source is Path <==> payload_of(source) is Name) && (source is Rgba
            <==> payload_of(source) is Pixmap),
{
    trimming_undoes_padding(left, name, right);
    let path = left + name + right;
    assert(path[left.len() as int] == name[0]);
}

/// A valid pixel buffer reaches the shell as one image of its extent, the bottom
/// row first, every pixel as blue, green, red and alpha.
pub proof fn pixels_reach_the_shell_bottom_up(
    width: u32,
    height: u32,
    stride: u32,
    data: Seq<u8>,
    row: int,
    column: int,
)
    requires
        (SourceView::Rgba { width, height, stride, data }).is_valid(),
        0 <= row < height,
        0 <= column < width,
    ensures
        payload_of(SourceView::Rgba { width, height, stride, data }) matches PayloadView::Pixmap(
            images,
        ) && {
            let at = ((height - 1 - row) * width + column) * 4;
            let from = row * stride + column * 4;
            &&& images.len() == 1
            &&& images[0].0 == width && images[0].1 == height
            &&& images[0].2.len() == width * height * 4
            &&& images[0].2[at] == data[from + 2]
            &&& images[0].2[at + 1] == data[from + 1]
            &&& images[0].2[at + 2] == data[from]
            &&& images[0].2[at + 3] == data[from + 3]
        },
{
    let source = SourceView::Rgba { width, height, stride, data };
    pixels_keep_their_place_and_colour(
        width,
        height,
        stride,
        data,
        RowOrder::BottomUp,
        row,
        column,
    );
    only_valid_buffers_give_pixels(source, RowOrder::BottomUp);
    assert(width <= 0x3fff_ffff && height <= 0x3fff_ffff) by (nonlinear_arith)
        requires
            0 < width,
            0 < height,
            width * 4 <= stride,
            stride * height <= 0xffff_ffff,
    ;
}

/// A shell reads a name or pixels as they are, and nothing of the other.
pub proof fn an_icon_is_read_by_name_or_by_pixels(
    name: Seq<char>,
    images: Seq<(i32, i32, Seq<u8>)>,
)
    ensures
        PayloadView::Name(name).name() == name,
        PayloadView::Name(name).pixmap().len() == 0,
        PayloadView::Pixmap(images).pixmap() == images,
        PayloadView::Pixmap(images).name().len() == 0,
        PayloadView::Absent.name().len() == 0 && PayloadView::Absent.pixmap().len() == 0,
{
}

/// The mirror of a registration shows what was registered and reports to the
/// handlers that were registered.
pub proof fn a_mirror_serves_what_was_registered(config: TrayIconConfig, shared: TrayShared)
    requires
        call_ensures(TrayShared::registered, (&config,), shared),
    ensures
        shared@.name == config.name@,
        shared@.visible,
        shared@.menu == config.menu,
        shared@.on_click == config.on_click,
        shared@.on_double_click == config.on_double_click,
        shared@.last_activate is None,
        shared@.tooltip.is_prefix_of(config.tooltip@),
        config.tooltip@.len() <= 127 ==> shared@.tooltip == config.tooltip@,
        config.icon is None ==> shared@.icon == PayloadView::Absent,
        config.icon matches Some(source) ==> shared@.icon == payload_of(source@),
{
}

/// Bringing the mirror up to date copies the hover text, the icon, the menu and
/// the visibility, and tells the shell of exactly those that changed; without a
/// host nothing changes.
pub proof fn a_shell_is_told_what_changed(mirror: SharedView, host: StateView)
    ensures
        ({
            let after = mirror.synced(Some(host));
            let changes = differences(mirror, after);
            &&& after.tooltip == host.tooltip
            &&& after.visible == host.visible
            &&& after.menu == host.menu
            &&& host.icon is None ==> after.icon == PayloadView::Absent
            &&& host.icon matches Some(source) ==> after.icon == payload_of(source)
            &&& changes.title <==> mirror.tooltip != host.tooltip
            &&& changes.status <==> mirror.visible != host.visible
            &&& changes.layout <==> mirror.menu != host.menu
            &&& changes.icon <==> mirror.icon != after.icon
        }),
        mirror.synced(None) == mirror,
{
}

/// A visible icon is active and a hidden one passive.
pub proof fn a_hidden_icon_is_passive(visible: bool)
    ensures
        visible ==> status_word(visible) == "Active"@,
        !visible ==> status_word(visible) == "Passive"@,
{
}

/// A single activation calls the click handler; a second one within half a
/// second calls the double-click handler instead, and a later one the click
/// handler again.
pub proof fn an_activation_reaches_its_handler(shared: SharedView, first: u64, second: u64)
    requires
        first <= second,
    ensures
        handler_of(shared, activation_event(None, first)) == shared.on_click,
        second - first <= 500_000_000 ==> activation_event(Some(first), second)
            == TrayEvent::DoubleClick && handler_of(shared, activation_event(Some(first), second))
            == shared.on_double_click,
        second - first > 500_000_000 ==> activation_event(Some(first), second) == TrayEvent::Click
            && handler_of(shared, activation_event(Some(first), second)) == shared.on_click,
{
}

/// An icon is set up step by step and then served; a step that fails before the
/// announcement stops the worker, and a missing watcher does not.
pub proof fn an_icon_is_served_once_it_is_exported(well: bool)
    ensures
        step_after(WorkerStep::Connect, true) == WorkerStep::OwnName,
        step_after(WorkerStep::OwnName, true) == WorkerStep::ExportItem,
        step_after(WorkerStep::ExportItem, true) == WorkerStep::ExportMenu,
        step_after(WorkerStep::ExportMenu, true) == WorkerStep::Announce,
        step_after(WorkerStep::Announce, well) == WorkerStep::Serve,
        step_after(WorkerStep::Serve, true) == WorkerStep::Serve,
        step_after(WorkerStep::Connect, false) == WorkerStep::Stopped,
        step_after(WorkerStep::OwnName, false) == WorkerStep::Stopped,
        step_after(WorkerStep::ExportItem, false) == WorkerStep::Stopped,
        step_after(WorkerStep::ExportMenu, false) == WorkerStep::Stopped,
        step_after(WorkerStep::Stopped, well) == WorkerStep::Stopped,
{
}

/// A worker serves as long as its channel is open and a host that was not shut
/// down owns the icon.
pub proof fn a_worker_serves_while_it_is_owned(
    disconnected: bool,
    host: Option<&TrayIconState>,
    well: bool,
    released: bool,
)
    requires
        call_ensures(keeps_serving, (disconnected, host), well),
        call_ensures(host_released, (host,), released),
    ensures
        released <==> host is None || host->0.shutdown,
        well <==> !disconnected && !released,
{
}

/// The KDE watcher is asked first and the freedesktop one second, each at its own
/// interface; then no other is left.
pub proof fn two_watchers_are_asked(
    failures: usize,
    service: Option<&'static str>,
    interface: Option<&'static str>,
)
    requires
        call_ensures(watcher_service, (failures,), service),
        call_ensures(watcher_interface, (failures,), interface),
    ensures
        failures == 0 ==> service is Some && interface is Some && service->0@
            == "org.kde.StatusNotifierWatcher"@ && interface->0@ == "org.kde.StatusNotifierWatcher"@,
        failures == 1 ==> service is Some && interface is Some && service->0@
            == "org.freedesktop.StatusNotifierWatcher"@ && interface->0@
            == "org.freedesktop.StatusNotifierWatcher"@,
        failures > 1 ==> service is None && interface is None,
{
}

/// A label keeps letters, digits, dashes and underscores where they stand, and
/// has a dash in the place of everything else.
pub proof fn a_label_keeps_what_it_may_carry(app_name: Seq<char>, i: int)
    requires
        0 <= i < app_name.len(),
    ensures
        bus_label(app_name).len() == app_name.len(),
        bus_label(app_name)[i] == (if 'a' <= app_name[i] <= 'z' || 'A' <= app_name[i] <= 'Z' || '0'
            <= app_name[i] <= '9' || app_name[i] == '_' {
            app_name[i]
        } else {
            '-'
        }),
{
}

/// A bus name tells the application, the process and the item; without a name it
/// tells `UDA`.
pub proof fn a_bus_name_tells_whose_item_it_is(app_name: Seq<char>, pid: u32, index: u32)
    ensures
        begins_with(bus_name_of(app_name, pid, index), "org.kde.StatusNotifierItem-"@),
        finishes_with(
            bus_name_of(app_name, pid, index),
            "-"@ + decimal(pid as nat) + "-"@ + decimal(index as nat),
        ),
        app_name.len() == 0 ==> bus_label(app_name) == "UDA"@,
        (forall|i: int| 0 <= i < app_name.len() ==> is_label_char(#[trigger] app_name[i]))
            && app_name.len() > 0 ==> bus_label(app_name) == app_name,
{
    let head = "org.kde.StatusNotifierItem-"@;
    let label = bus_label(app_name);
    let rest = "-"@ + decimal(pid as nat) + "-"@ + decimal(index as nat);
    let name = bus_name_of(app_name, pid, index);
    assert(name =~= head + (label + rest));
    parts_are_found_where_they_stand(head, head, label + rest);
    assert(name =~= (head + label) + rest);
    parts_are_found_where_they_stand(head + label, rest, Seq::empty());
    if (forall|i: int| 0 <= i < app_name.len() ==> is_label_char(#[trigger] app_name[i]))
        && app_name.len() > 0 {
        assert(label =~= app_name);
    }
}

/// An activation calls the handler of the event it stands for and starts the
/// double-click window anew; nothing else of the item changes.
pub proof fn an_activation_is_dispatched(
    item: &mut StatusNotifierItemInterface,
    actions: ActionStore,
    now: u64,
    call: Option<TrayCall>,
)
    requires
        call_ensures(
            StatusNotifierItemInterface::dispatch_activation,
            (item, &actions, now),
            call,
        ),
    ensures
        ({
            let last = old(item)@.last_activate;
            let double = last is Some && now <= last->0 + 500_000_000;
            &&& double ==> call == call_of(
                actions@,
                old(item)@.on_double_click,
                TrayEvent::DoubleClick,
            )
            &&& !double ==> call == call_of(actions@, old(item)@.on_click, TrayEvent::Click)
            &&& final(item)@ == (SharedView { last_activate: Some(now), ..old(item)@ })
        }),
{
}

/// An item tells a shell its name, its hover text, its status and its icon, and
/// the path of its menu.
pub proof fn an_item_tells_its_state(
    item: StatusNotifierItemInterface,
    id: String,
    title: String,
    status: &'static str,
    name: String,
    pixmap: Vec<(i32, i32, Vec<u8>)>,
    menu: &'static str,
    is_menu: bool,
    category: &'static str,
)
    requires
        call_ensures(StatusNotifierItemInterface::id, (&item,), id),
        call_ensures(StatusNotifierItemInterface::title, (&item,), title),
        call_ensures(StatusNotifierItemInterface::status, (&item,), status),
        call_ensures(StatusNotifierItemInterface::icon_name, (&item,), name),
        call_ensures(StatusNotifierItemInterface::icon_pixmap, (&item,), pixmap),
        call_ensures(StatusNotifierItemInterface::menu, (&item,), menu),
        call_ensures(StatusNotifierItemInterface::item_is_menu, (&item,), is_menu),
        call_ensures(StatusNotifierItemInterface::category, (&item,), category),
    ensures
        id@ == item@.name,
        title@ == item@.tooltip,
        item@.visible ==> status@ == "Active"@,
        !item@.visible ==> status@ == "Passive"@,
        item@.icon matches PayloadView::Name(shown) ==> name@ == shown && pixmap@.len() == 0,
        item@.icon matches PayloadView::Pixmap(images) ==> name@.len() == 0 && pixmap_view(pixmap@)
            == images,
        item@.icon is Absent ==> name@.len() == 0 && pixmap@.len() == 0,
        menu@ == "/MenuBar"@,
        !is_menu,
        category@ == "ApplicationStatus"@,
{
    assert(pixmap_view(pixmap@).len() == pixmap@.len());
}

/// Bringing an item up to date mirrors the host and tells exactly what changed.
pub proof fn a_refresh_tells_what_changed(
    item: &mut StatusNotifierItemInterface,
    host: Option<&TrayIconState>,
    changes: Changes,
)
    requires
        call_ensures(StatusNotifierItemInterface::refresh, (item, host), changes),
    ensures
        host is None ==> final(item)@ == old(item)@ && !changes.title && !changes.icon
            && !changes.status && !changes.layout,
        host matches Some(state) ==> {
            &&& final(item)@.tooltip == state.tooltip@
            &&& final(item)@.visible == state.visible
            &&& final(item)@.menu == state.menu
            &&& state.icon is None ==> final(item)@.icon == PayloadView::Absent
            &&& state.icon matches Some(source) ==> final(item)@.icon == payload_of(source@)
            &&& changes.title <==> old(item)@.tooltip != state.tooltip@
            &&& changes.status <==> old(item)@.visible != state.visible
            &&& changes.layout <==> old(item)@.menu != state.menu
            &&& changes.icon <==> old(item)@.icon != final(item)@.icon
        },
        final(item)@.name == old(item)@.name,
        final(item)@.on_click == old(item)@.on_click,
        final(item)@.on_double_click == old(item)@.on_double_click,
{
}

/// A registered icon shows what was asked for, under its name, and publishes every
/// tray feature but a native double click.
pub proof fn a_created_icon_shows_what_was_asked_for(
    config: TrayIconConfig,
    res: Result<TrayIcon, UdaError>,
    feature: TrayFeature,
)
    requires
        call_ensures(LinuxTrayManager::create, (&LinuxTrayManager, config), res),
    ensures
        res matches Ok(icon) && {
            &&& icon.spec_name() == config.name@
            &&& icon.state().visible && !icon.state().shutdown
            &&& icon.state().menu == config.menu
            &&& icon.state().icon == config@.icon
            &&& icon.state().tooltip.is_prefix_of(config.tooltip@)
            &&& config.tooltip@.len() <= 80 ==> icon.state().tooltip == config.tooltip@
            &&& config.tooltip@.len() <= 80 && feature != TrayFeature::DoubleClick
                ==> icon.state().level(feature) == SupportLevel::Full
            &&& icon.state().level(TrayFeature::DoubleClick) == SupportLevel::Unsupported
        },
{
    if let Ok(icon) = res {
        assert(({
            let all = LINUX_TRAY_FLAGS;
            &&& all & Capability::SYSTEM_TRAY == Capability::SYSTEM_TRAY
            &&& all & Capability::TRAY_CLICK == Capability::TRAY_CLICK
            &&& all & Capability::TRAY_DOUBLE_CLICK != Capability::TRAY_DOUBLE_CLICK
            &&& all & Capability::TRAY_CONTEXT_MENU == Capability::TRAY_CONTEXT_MENU
            &&& all & Capability::TRAY_CHECKBOX == Capability::TRAY_CHECKBOX
            &&& all & Capability::TRAY_DYNAMIC_MENU == Capability::TRAY_DYNAMIC_MENU
        })) by (bit_vector);
    }
}

} // verus!
