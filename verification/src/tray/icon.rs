//! Describing a tray icon, and the state of a live one.

use crate::capability::{Capability, SupportLevel};
use crate::error::{ErrorView, UdaError};
use crate::tray::event::TrayAction;
use crate::tray::item::MenuRef;
use crate::tray::source::{SourceView, TrayIconSource};
use crate::tray::tooltip::{
    exceeds_target, safe_tooltip, sanitize_tooltip, tooltip_needs_truncation,
};
use crate::DEFAULT_APP_NAME;
use vstd::prelude::*;

verus! {

// ---------------------------------------------------------------------------
// Configuration
// ---------------------------------------------------------------------------
/// Builder for [`TrayIconConfig`].
///
/// Construction never touches the OS: `build()` only packages the
/// configuration. Registration happens when the config is handed to
/// [`TrayManager::create`].
#[derive(Debug)]
pub struct TrayIconBuilder {
    name: Option<String>,
    icon: Option<TrayIconSource>,
    tooltip: String,
    menu: Option<MenuRef>,
    on_click: Option<TrayAction>,
    on_double_click: Option<TrayAction>,
}

/// What a [`TrayIconBuilder`] has collected.
#[verifier::ext_equal]
pub struct BuilderView {
    pub name: Option<Seq<char>>,
    pub icon: Option<SourceView>,
    pub tooltip: Seq<char>,
    pub menu: Option<MenuRef>,
    pub on_click: Option<TrayAction>,
    pub on_double_click: Option<TrayAction>,
}

/// The contents of an optional icon.
pub open spec fn source_view(icon: Option<TrayIconSource>) -> Option<SourceView> {
    match icon {
        Some(source) => Some(source@),
        None => None,
    }
}

impl View for TrayIconBuilder {
    type V = BuilderView;

    closed spec fn view(&self) -> BuilderView {
        BuilderView {
            name: match self.name {
                Some(name) => Some(name@),
                None => None,
            },
            icon: source_view(self.icon),
            tooltip: self.tooltip@,
            menu: self.menu,
            on_click: self.on_click,
            on_double_click: self.on_double_click,
        }
    }
}

impl Default for TrayIconBuilder {
    fn default() -> (builder: Self)
        ensures
            builder@ == BuilderView::empty(),
    {
        TrayIconBuilder::new()
    }
}

impl BuilderView {
    /// Nothing collected yet.
    pub open spec fn empty() -> BuilderView {
        BuilderView {
            name: None,
            icon: None,
            tooltip: Seq::empty(),
            menu: None,
            on_click: None,
            on_double_click: None,
        }
    }
}

impl TrayIconBuilder {
    /// An empty builder.
    pub fn new() -> (builder: Self)
        ensures
            builder@ == BuilderView::empty(),
    {
        TrayIconBuilder {
            name: None,
            icon: None,
            tooltip: String::new(),
            menu: None,
            on_click: None,
            on_double_click: None,
        }
    }

    /// Application name used for registration (D-Bus bus name / window class).
    pub fn name(self, name: &str) -> (builder: Self)
        ensures
            builder@ == (BuilderView { name: Some(name@), ..self@ }),
    {
        TrayIconBuilder { name: Some(name.to_owned()), ..self }
    }

    /// Icon from a file path or freedesktop icon-theme name.
    pub fn icon_path(self, path: &str) -> (builder: Self)
        ensures
            builder@ == (BuilderView { icon: Some(SourceView::Path(path@)), ..self@ }),
    {
        TrayIconBuilder { icon: Some(TrayIconSource::Path(path.to_owned())), ..self }
    }

    /// Icon from raw RGBA bytes.
    pub fn icon_rgba(self, width: u32, height: u32, stride: u32, data: Vec<u8>) -> (builder: Self)
        ensures
            builder@ == (BuilderView {
                icon: Some(SourceView::Rgba { width, height, stride, data: data@ }),
                ..self@
            }),
    {
        TrayIconBuilder {
            icon: Some(TrayIconSource::Rgba { width, height, stride, data }),
            ..self
        }
    }

    /// Tooltip text. Over-long values are clamped by the backend, which then
    /// reports [`SupportLevel::Partial`].
    pub fn tooltip(self, tooltip: &str) -> (builder: Self)
        ensures
            builder@ == (BuilderView { tooltip: tooltip@, ..self@ }),
    {
        TrayIconBuilder { tooltip: tooltip.to_owned(), ..self }
    }

    /// Attach a context menu.
    pub fn menu(self, menu: MenuRef) -> (builder: Self)
        ensures
            builder@ == (BuilderView { menu: Some(menu), ..self@ }),
    {
        TrayIconBuilder { menu: Some(menu), ..self }
    }

    /// Register the left-click callback.
    pub fn on_click(self, handler: TrayAction) -> (builder: Self)
        ensures
            builder@ == (BuilderView { on_click: Some(handler), ..self@ }),
    {
        TrayIconBuilder { on_click: Some(handler), ..self }
    }

    /// Register the double-click callback.
    pub fn on_double_click(self, handler: TrayAction) -> (builder: Self)
        ensures
            builder@ == (BuilderView { on_double_click: Some(handler), ..self@ }),
    {
        TrayIconBuilder { on_double_click: Some(handler), ..self }
    }

    /// Finish the configuration. An icon without a name gets the default one.
    pub fn build(self) -> (config: TrayIconConfig)
        ensures
            config@ == self@.finished(),
    {
        let name = match self.name {
            Some(name) => name,
            None => DEFAULT_APP_NAME.to_owned(),
        };
        TrayIconConfig {
            name,
            icon: self.icon,
            tooltip: self.tooltip,
            menu: self.menu,
            on_click: self.on_click,
            on_double_click: self.on_double_click,
        }
    }
}

/// A fully specified, OS-independent tray icon description.
///
/// Handed to a platform backend by [`TrayManager::create`].
#[derive(Debug)]
pub struct TrayIconConfig {
    /// Application name for registration.
    pub name: String,
    /// Icon image, if any.
    pub icon: Option<TrayIconSource>,
    /// Tooltip text; may be empty.
    pub tooltip: String,
    /// Context menu, if any.
    pub menu: Option<MenuRef>,
    /// Left-click handler.
    pub on_click: Option<TrayAction>,
    /// Double-click handler.
    pub on_double_click: Option<TrayAction>,
}

/// What a [`TrayIconConfig`] describes.
#[verifier::ext_equal]
pub struct ConfigView {
    pub name: Seq<char>,
    pub icon: Option<SourceView>,
    pub tooltip: Seq<char>,
    pub menu: Option<MenuRef>,
    pub on_click: Option<TrayAction>,
    pub on_double_click: Option<TrayAction>,
}

impl View for TrayIconConfig {
    type V = ConfigView;

    open spec fn view(&self) -> ConfigView {
        ConfigView {
            name: self.name@,
            icon: source_view(self.icon),
            tooltip: self.tooltip@,
            menu: self.menu,
            on_click: self.on_click,
            on_double_click: self.on_double_click,
        }
    }
}

impl BuilderView {
    /// The configuration that `build` packages.
    pub open spec fn finished(self) -> ConfigView {
        ConfigView {
            name: match self.name {
                Some(name) => name,
                None => DEFAULT_APP_NAME@,
            },
            icon: self.icon,
            tooltip: self.tooltip,
            menu: self.menu,
            on_click: self.on_click,
            on_double_click: self.on_double_click,
        }
    }
}

impl ConfigView {
    /// Only a name.
    pub open spec fn named(name: Seq<char>) -> ConfigView {
        ConfigView {
            name,
            icon: None,
            tooltip: Seq::empty(),
            menu: None,
            on_click: None,
            on_double_click: None,
        }
    }
}

impl TrayIconConfig {
    /// A config with only the application name set.
    pub fn new(name: &str) -> (config: Self)
        ensures
            config@ == ConfigView::named(name@),
    {
        TrayIconConfig {
            name: name.to_owned(),
            icon: None,
            tooltip: String::new(),
            menu: None,
            on_click: None,
            on_double_click: None,
        }
    }
}

impl Default for TrayIconConfig {
    fn default() -> (config: Self)
        ensures
            config@ == ConfigView::named(DEFAULT_APP_NAME@),
    {
        TrayIconConfig::new(DEFAULT_APP_NAME)
    }
}

// ---------------------------------------------------------------------------
// Features
// ---------------------------------------------------------------------------
/// Which individual tray feature a capability query refers to.
#[derive(Debug, Clone, Copy, PartialEq, Eq, Hash, Structural)]
pub enum TrayFeature {
    /// Showing and hiding the icon.
    Icon,
    /// Tooltip / hover text.
    Tooltip,
    /// Single left-click event.
    Click,
    /// Double-click event.
    DoubleClick,
    /// Right-click context menu.
    ContextMenu,
    /// Checkbox rows inside the menu.
    Checkbox,
    /// Runtime menu mutation.
    DynamicMenu,
}

impl TrayFeature {
    /// The feature in words.
    pub open spec fn shown(self) -> Seq<char> {
        match self {
            TrayFeature::Icon => "tray icon"@,
            TrayFeature::Tooltip => "tray tooltip"@,
            TrayFeature::Click => "tray click event"@,
            TrayFeature::DoubleClick => "tray double-click event"@,
            TrayFeature::ContextMenu => "tray context menu"@,
            TrayFeature::Checkbox => "tray checkbox items"@,
            TrayFeature::DynamicMenu => "tray menu updates"@,
        }
    }

    /// The feature in words.
    pub fn text(&self) -> (text: String)
        ensures
            text@ == self.shown(),
    {
        match self {
            TrayFeature::Icon => "tray icon".to_owned(),
            TrayFeature::Tooltip => "tray tooltip".to_owned(),
            TrayFeature::Click => "tray click event".to_owned(),
            TrayFeature::DoubleClick => "tray double-click event".to_owned(),
            TrayFeature::ContextMenu => "tray context menu".to_owned(),
            TrayFeature::Checkbox => "tray checkbox items".to_owned(),
            TrayFeature::DynamicMenu => "tray menu updates".to_owned(),
        }
    }

    /// The capability flag a feature maps onto.
    pub open spec fn flag(self) -> u32 {
        match self {
            TrayFeature::Icon => Capability::TRAY_ICON,
            TrayFeature::Tooltip => Capability::TRAY_TOOLTIP,
            TrayFeature::Click => Capability::TRAY_CLICK,
            TrayFeature::DoubleClick => Capability::TRAY_DOUBLE_CLICK,
            TrayFeature::ContextMenu => Capability::TRAY_CONTEXT_MENU,
            TrayFeature::Checkbox => Capability::TRAY_CHECKBOX,
            TrayFeature::DynamicMenu => Capability::TRAY_DYNAMIC_MENU,
        }
    }
}

/// The capability flag a feature maps onto.
pub fn feature_flag(feature: TrayFeature) -> (flag: u32)
    ensures
        flag == feature.flag(),
{
    match feature {
        TrayFeature::Icon => Capability::TRAY_ICON,
        TrayFeature::Tooltip => Capability::TRAY_TOOLTIP,
        TrayFeature::Click => Capability::TRAY_CLICK,
        TrayFeature::DoubleClick => Capability::TRAY_DOUBLE_CLICK,
        TrayFeature::ContextMenu => Capability::TRAY_CONTEXT_MENU,
        TrayFeature::Checkbox => Capability::TRAY_CHECKBOX,
        TrayFeature::DynamicMenu => Capability::TRAY_DYNAMIC_MENU,
    }
}

/// What a backend that publishes `capabilities` says about a feature: all of it
/// or nothing, and nothing at all without a tray.
pub open spec fn published_level(capabilities: Capability, feature: TrayFeature) -> SupportLevel {
    if capabilities.has(Capability::SYSTEM_TRAY) && capabilities.has(feature.flag()) {
        SupportLevel::Full
    } else {
        SupportLevel::Unsupported
    }
}

/// What a backend that publishes `capabilities` says about a feature.
pub fn backend_support_level(capabilities: Capability, feature: TrayFeature) -> (level:
    SupportLevel)
    ensures
        level == published_level(capabilities, feature),
{
    if !capabilities.contains(Capability::SYSTEM_TRAY) {
        return SupportLevel::Unsupported;
    }
    if capabilities.contains(feature_flag(feature)) {
        SupportLevel::Full
    } else {
        SupportLevel::Unsupported
    }
}

// ---------------------------------------------------------------------------
// Live state
// ---------------------------------------------------------------------------
/// The mutable part of a live icon, shared with the platform worker.
#[derive(Debug)]
pub struct TrayIconState {
    /// Current tooltip text.
    pub tooltip: String,
    /// Current icon, if one is set.
    pub icon: Option<TrayIconSource>,
    /// Current context menu, if one is attached.
    pub menu: Option<MenuRef>,
    /// Whether the icon is shown.
    pub visible: bool,
    /// Set once and never cleared, so that an icon is unregistered only once.
    pub shutdown: bool,
    /// Feature support reported by the backend that registered this icon. Empty
    /// until the backend publishes it.
    pub capabilities: Capability,
}

/// What a [`TrayIconState`] says.
#[verifier::ext_equal]
pub struct StateView {
    pub tooltip: Seq<char>,
    pub icon: Option<SourceView>,
    pub menu: Option<MenuRef>,
    pub visible: bool,
    pub shutdown: bool,
    pub capabilities: u32,
}

impl View for TrayIconState {
    type V = StateView;

    open spec fn view(&self) -> StateView {
        StateView {
            tooltip: self.tooltip@,
            icon: source_view(self.icon),
            menu: self.menu,
            visible: self.visible,
            shutdown: self.shutdown,
            capabilities: self.capabilities@,
        }
    }
}

impl StateView {
    /// A visible icon that claims nothing yet.
    pub open spec fn fresh() -> StateView {
        StateView {
            tooltip: Seq::empty(),
            icon: None,
            menu: None,
            visible: true,
            shutdown: false,
            capabilities: 0,
        }
    }
}

/// The state of a host that may be gone.
pub open spec fn host_view(host: Option<&TrayIconState>) -> Option<StateView> {
    match host {
        Some(state) => Some(state@),
        None => None,
    }
}

impl Default for TrayIconState {
    fn default() -> (state: Self)
        ensures
            state@ == StateView::fresh(),
    {
        TrayIconState {
            tooltip: String::new(),
            icon: None,
            menu: None,
            visible: true,
            shutdown: false,
            capabilities: Capability::empty(),
        }
    }
}

/// Shared state of a [`TrayIcon`]: what the host writes and the backend mirrors.
#[derive(Debug)]
pub struct TrayIconInner {
    /// Application name used at registration.
    pub name: String,
    /// The state every holder observes.
    pub state: TrayIconState,
}

impl TrayIconInner {
    /// The state of a fresh icon: visible, and claiming nothing yet.
    pub fn new(name: String) -> (inner: Self)
        ensures
            inner.name == name,
            inner.state@ == StateView::fresh(),
    {
        TrayIconInner { name, state: TrayIconState::default() }
    }

    /// Copy the registration-time values into the state, so that the host and the
    /// worker agree on what was registered. The tooltip is clamped to its ceiling.
    pub fn seed(&mut self, config: &TrayIconConfig)
        ensures
            final(self).name == old(self).name,
            final(self).state@ == seeded(old(self).state@, config@),
    {
        self.state.tooltip = sanitize_tooltip(config.tooltip.as_str()).to_owned();
        self.state.icon = match &config.icon {
            Some(source) => Some(source.clone()),
            None => None,
        };
        self.state.menu = config.menu;
        self.state.visible = true;
    }

    /// Publish what the active backend actually supports.
    pub fn set_capabilities(&mut self, capabilities: Capability)
        ensures
            final(self).name == old(self).name,
            final(self).state@ == (StateView {
                capabilities: capabilities@,
                ..old(self).state@
            }),
    {
        self.state.capabilities = capabilities;
    }

    /// The state, open for changes.
    pub fn lock_state(&mut self) -> (state: &mut TrayIconState)
        ensures
            *state == old(self).state,
            final(self).name == old(self).name,
            final(self).state == *final(state),
    {
        &mut self.state
    }
}

/// A live tray icon, owned by the host.
#[derive(Debug)]
pub struct TrayIcon {
    inner: TrayIconInner,
}

impl TrayIcon {
    /// The application name used at registration.
    pub closed spec fn spec_name(self) -> Seq<char> {
        self.inner.name@
    }

    /// The state every holder observes.
    pub closed spec fn state(self) -> StateView {
        self.inner.state@
    }

    /// Wrap backend-owned state.
    pub fn from_inner(inner: TrayIconInner) -> (icon: Self)
        ensures
            icon.spec_name() == inner.name@,
            icon.state() == inner.state@,
    {
        TrayIcon { inner }
    }

    /// The state behind the icon.
    pub fn inner(&self) -> (inner: &TrayIconInner)
        ensures
            inner.name@ == self.spec_name(),
            inner.state@ == self.state(),
    {
        &self.inner
    }

    /// The state behind the icon, open for the backend that owns it.
    pub fn inner_mut(&mut self) -> (inner: &mut TrayIconInner)
        ensures
            inner.name@ == old(self).spec_name(),
            inner.state@ == old(self).state(),
            final(self).spec_name() == final(inner).name@,
            final(self).state() == final(inner).state@,
    {
        &mut self.inner
    }

    /// The application name used at registration.
    pub fn name(&self) -> (name: &str)
        ensures
            name@ == self.spec_name(),
    {
        self.inner.name.as_str()
    }

    /// Replace the tooltip, clamped to the hard ceiling.
    ///
    /// Never fails: clamping is the documented degradation path.
    pub fn set_tooltip(&mut self, tooltip: &str)
        ensures
            final(self).spec_name() == old(self).spec_name(),
            final(self).state() == (StateView {
                tooltip: safe_tooltip(tooltip@),
                ..old(self).state()
            }),
    {
        self.inner.state.tooltip = sanitize_tooltip(tooltip).to_owned();
    }

    /// The current tooltip text.
    pub fn tooltip(&self) -> (text: String)
        ensures
            text@ == self.state().tooltip,
    {
        self.inner.state.tooltip.clone()
    }

    /// Replace the icon.
    ///
    /// The new source is validated first, so an invalid value leaves the
    /// previous icon in place and returns a typed error.
    pub fn set_icon(&mut self, icon: TrayIconSource) -> (res: Result<(), UdaError>)
        ensures
            final(self).spec_name() == old(self).spec_name(),
            res is Ok <==> icon@.is_valid(),
            res is Ok ==> final(self).state() == (StateView {
                icon: Some(icon@),
                ..old(self).state()
            }),
            res matches Err(error) ==> final(self).state() == old(self).state() && (
            icon@.verdict() matches Err(reason) && error@ == ErrorView::NotSupported(
                "invalid tray icon: "@ + reason.shown(),
            )),
    {
        match icon.validate() {
            Err(reason) => Err(
                UdaError::NotSupported(
                    "invalid tray icon: ".to_owned().concat(reason.message().as_str()),
                ),
            ),
            Ok(()) => {
                self.inner.state.icon = Some(icon);
                Ok(())
            },
        }
    }

    /// Replace the context menu.
    pub fn set_menu(&mut self, menu: MenuRef)
        ensures
            final(self).spec_name() == old(self).spec_name(),
            final(self).state() == (StateView { menu: Some(menu), ..old(self).state() }),
    {
        self.inner.state.menu = Some(menu);
    }

    /// Drop the context menu, leaving a bare icon.
    pub fn clear_menu(&mut self)
        ensures
            final(self).spec_name() == old(self).spec_name(),
            final(self).state() == (StateView { menu: None, ..old(self).state() }),
    {
        self.inner.state.menu = None;
    }

    /// The current context menu, if one is attached.
    pub fn menu(&self) -> (menu: Option<MenuRef>)
        ensures
            menu == self.state().menu,
    {
        self.inner.state.menu
    }

    /// Hide the icon without unregistering it.
    pub fn hide_icon(&mut self)
        ensures
            final(self).spec_name() == old(self).spec_name(),
            final(self).state() == (StateView { visible: false, ..old(self).state() }),
    {
        self.inner.state.visible = false;
    }

    /// Show a previously hidden icon.
    pub fn show(&mut self)
        ensures
            final(self).spec_name() == old(self).spec_name(),
            final(self).state() == (StateView { visible: true, ..old(self).state() }),
    {
        self.inner.state.visible = true;
    }

    /// Whether the icon is currently shown.
    pub fn is_visible(&self) -> (yes: bool)
        ensures
            yes == self.state().visible,
    {
        self.inner.state.visible
    }

    /// Support level for one feature on the active backend.
    ///
    /// Answers from the capability set the backend published at registration, so
    /// the value is always a statement about *this* icon's environment. Before a
    /// backend publishes, the answer stays [`SupportLevel::Unsupported`]. A
    /// tooltip over its preferred length is reported as partially supported.
    pub fn support_level(&self, feature: TrayFeature) -> (level: SupportLevel)
        ensures
            level == self.state().level(feature),
    {
        let capabilities = self.inner.state.capabilities;
        if !capabilities.contains(Capability::SYSTEM_TRAY) {
            return SupportLevel::Unsupported;
        }
        match feature {
            TrayFeature::Icon => SupportLevel::Full,
            TrayFeature::Tooltip => if tooltip_needs_truncation(self.inner.state.tooltip.as_str()) {
                SupportLevel::Partial
            } else {
                SupportLevel::Full
            },
            other => if capabilities.contains(feature_flag(other)) {
                SupportLevel::Full
            } else {
                SupportLevel::Unsupported
            },
        }
    }

    /// The capability set of the active backend. Empty when no tray mechanism
    /// was reached, which is the caller's cue to hide its tray UI entirely.
    pub fn capabilities(&self) -> (capabilities: Capability)
        ensures
            capabilities@ == self.state().capabilities,
    {
        self.inner.state.capabilities
    }

    /// Mark the icon for unregistration. Returns whether this was the first
    /// request: only then is there something to unregister.
    pub fn shut_down(&mut self) -> (first: bool)
        ensures
            first == !old(self).state().shutdown,
            final(self).spec_name() == old(self).spec_name(),
            final(self).state() == (StateView { shutdown: true, ..old(self).state() }),
    {
        let first = !self.inner.state.shutdown;
        self.inner.state.shutdown = true;
        first
    }
}

impl StateView {
    /// Whether the backend published every flag of `flags`.
    pub open spec fn has(self, flags: u32) -> bool {
        self.capabilities & flags == flags
    }

    /// The support level of one feature for this icon. Every backend guarantees
    /// the icon and its hover text once an icon exists.
    pub open spec fn level(self, feature: TrayFeature) -> SupportLevel {
        if !self.has(Capability::SYSTEM_TRAY) {
            SupportLevel::Unsupported
        } else {
            match feature {
                TrayFeature::Icon => SupportLevel::Full,
                TrayFeature::Tooltip => if exceeds_target(self.tooltip) {
                    SupportLevel::Partial
                } else {
                    SupportLevel::Full
                },
                other => if self.has(other.flag()) {
                    SupportLevel::Full
                } else {
                    SupportLevel::Unsupported
                },
            }
        }
    }
}

/// A state that shows what was registered.
pub open spec fn seeded(state: StateView, config: ConfigView) -> StateView {
    StateView {
        tooltip: safe_tooltip(config.tooltip),
        icon: config.icon,
        menu: config.menu,
        visible: true,
        ..state
    }
}

/// The tooltip of a registration reads back within its ceiling, and one over the
/// preferred length is reported as partially supported by any backend with a
/// tray.
pub proof fn a_registered_tooltip_is_clamped_and_reported(config: ConfigView, capabilities: u32)
    ensures
        ({
            let state = StateView { capabilities, ..seeded(StateView::fresh(), config) };
            &&& state.tooltip == safe_tooltip(config.tooltip)
            &&& state.has(Capability::SYSTEM_TRAY) ==> (state.level(TrayFeature::Tooltip)
                == SupportLevel::Partial <==> exceeds_target(config.tooltip))
        }),
{
    crate::tray::tooltip::clamping_keeps_the_overlength_report(config.tooltip);
}

/// Until a backend publishes something, no feature is claimed.
pub proof fn an_unpublished_icon_claims_nothing(feature: TrayFeature)
    ensures
        StateView::fresh().level(feature) == SupportLevel::Unsupported,
{
    let flag = Capability::SYSTEM_TRAY;
    assert(0u32 & flag == 0) by (bit_vector);
}

/// A feature of its own is never claimed without its flag, nor without a tray.
pub proof fn claims_are_backed_by_flags(state: StateView, feature: TrayFeature)
    requires
        state.level(feature) != SupportLevel::Unsupported,
    ensures
        state.has(Capability::SYSTEM_TRAY),
        feature != TrayFeature::Icon && feature != TrayFeature::Tooltip ==> state.has(
            feature.flag(),
        ),
{
}

// ---------------------------------------------------------------------------
// Backends
// ---------------------------------------------------------------------------
/// Cross-platform tray management interface.
pub trait TrayManager {
    /// Register a tray icon and return its handle.
    fn create(&self, config: TrayIconConfig) -> Result<TrayIcon, UdaError>;

    /// The capability set of the active backend.
    fn capabilities(&self) -> Capability;

    /// Detailed support level for one feature.
    fn support_level(&self, feature: TrayFeature) -> SupportLevel;
}

// ---------------------------------------------------------------------------
// What a registration keeps and a feature needs
// ---------------------------------------------------------------------------
/// A finished description holds what was collected; only a missing name is
/// filled in.
pub proof fn a_description_holds_what_was_collected(builder: BuilderView)
    ensures
        ({
            let config = builder.finished();
            &&& builder.name matches Some(name) ==> config.name == name
            &&& builder.name is None ==> config.name == "UDA"@
            &&& config.icon == builder.icon
            &&& config.tooltip == builder.tooltip
            &&& config.menu == builder.menu
            &&& config.on_click == builder.on_click
            &&& config.on_double_click == builder.on_double_click
        }),
        BuilderView::empty().finished() == ConfigView::named("UDA"@),
        BuilderView::empty().icon is None && BuilderView::empty().menu is None,
        BuilderView::empty().tooltip.len() == 0,
        BuilderView::empty().on_click is None && BuilderView::empty().on_double_click is None,
{
}

/// A registered icon is visible and shows the image, the menu and the hover text
/// of its description; whether it was shut down and what its backend supports
/// stay as they were.
pub proof fn a_registration_reads_back(state: StateView, config: ConfigView)
    ensures
        ({
            let after = seeded(state, config);
            &&& after.visible
            &&& after.icon == config.icon
            &&& after.menu == config.menu
            &&& config.tooltip.len() <= 127 ==> after.tooltip == config.tooltip
            &&& after.tooltip.is_prefix_of(config.tooltip)
            &&& after.shutdown == state.shutdown
            &&& after.capabilities == state.capabilities
        }),
        StateView::fresh().visible && !StateView::fresh().shutdown,
        StateView::fresh().icon is None && StateView::fresh().menu is None,
{
}

/// Every feature has a flag of its own, which is not the flag of the tray itself.
pub proof fn every_feature_has_a_flag_of_its_own(a: TrayFeature, b: TrayFeature)
    ensures
        a.flag() == b.flag() ==> a == b,
        a != b ==> a.flag() & b.flag() == 0,
        a.flag() & Capability::SYSTEM_TRAY == 0,
        a.flag() != 0,
        a == TrayFeature::Icon ==> a.flag() == 0x100,
        a == TrayFeature::Tooltip ==> a.flag() == 0x200,
        a == TrayFeature::Click ==> a.flag() == 0x400,
        a == TrayFeature::DoubleClick ==> a.flag() == 0x800,
        a == TrayFeature::ContextMenu ==> a.flag() == 0x1000,
        a == TrayFeature::Checkbox ==> a.flag() == 0x2000,
        a == TrayFeature::DynamicMenu ==> a.flag() == 0x4000,
{
    let x = a.flag();
    let y = b.flag();
    assert(x != y ==> x & y == 0) by (bit_vector)
        requires
            x == 0x100 || x == 0x200 || x == 0x400 || x == 0x800 || x == 0x1000 || x == 0x2000 || x
                == 0x4000,
            y == 0x100 || y == 0x200 || y == 0x400 || y == 0x800 || y == 0x1000 || y == 0x2000 || y
                == 0x4000,
    ;
    assert(x & 0x80 == 0) by (bit_vector)
        requires
            x == 0x100 || x == 0x200 || x == 0x400 || x == 0x800 || x == 0x1000 || x == 0x2000 || x
                == 0x4000,
    ;
}

/// Publishing one more feature makes it fully supported and leaves the others as
/// they were.
pub proof fn a_published_feature_is_supported_alone(
    state: StateView,
    feature: TrayFeature,
    other: TrayFeature,
)
    requires
        state.capabilities & 0x80 == 0x80,
        feature != other,
    ensures
        ({
            let after = StateView { capabilities: state.capabilities | feature.flag(), ..state };
            &&& feature != TrayFeature::Tooltip ==> after.level(feature) == SupportLevel::Full
            &&& after.level(other) == state.level(other)
        }),
{
    every_feature_has_a_flag_of_its_own(feature, other);
    let c = state.capabilities;
    let f = feature.flag();
    let g = other.flag();
    assert((c | f) & f == f && ((c & g == g) <==> ((c | f) & g == g)) && ((c | f) & 0x80 == 0x80))
        by (bit_vector)
        requires
            f & g == 0,
            c & 0x80 == 0x80,
    ;
}

/// A feature is reported as partial only for hover text over 80 characters, and
/// without a tray nothing is supported at all.
pub proof fn only_long_hover_text_is_partial(state: StateView, feature: TrayFeature)
    ensures
        state.level(feature) == SupportLevel::Partial <==> state.capabilities & 0x80 == 0x80
            && feature == TrayFeature::Tooltip && state.tooltip.len() > 80,
        state.capabilities & 0x80 != 0x80 ==> state.level(feature) == SupportLevel::Unsupported,
        state.capabilities & 0x80 == 0x80 ==> state.level(TrayFeature::Icon) == SupportLevel::Full,
        state.capabilities & 0x80 == 0x80 && state.tooltip.len() <= 80 ==> state.level(
            TrayFeature::Tooltip,
        ) == SupportLevel::Full,
        feature != TrayFeature::Icon && feature != TrayFeature::Tooltip ==> (state.level(feature)
            == SupportLevel::Full <==> state.capabilities & 0x80 == 0x80 && state.capabilities
            & feature.flag() == feature.flag()),
{
}

/// A backend that publishes a tray and a feature supports it in full, and no
/// other backend does.
pub proof fn a_backend_supports_what_it_publishes(capabilities: Capability, feature: TrayFeature)
    ensures
        published_level(capabilities, feature) == SupportLevel::Full <==> capabilities@ & 0x80
            == 0x80 && capabilities@ & feature.flag() == feature.flag(),
        published_level(capabilities, feature) != SupportLevel::Partial,
{
}

/// No two features read alike.
pub proof fn features_read_differently(a: TrayFeature, b: TrayFeature)
    requires
        a.shown() == b.shown(),
    ensures
        a == b,
{
    reveal_strlit("tray icon");
    reveal_strlit("tray tooltip");
    reveal_strlit("tray click event");
    reveal_strlit("tray double-click event");
    reveal_strlit("tray context menu");
    reveal_strlit("tray checkbox items");
    reveal_strlit("tray menu updates");
    assert("tray icon"@.len() == 9);
    assert("tray tooltip"@.len() == 12);
    assert("tray click event"@.len() == 16);
    assert("tray double-click event"@.len() == 23);
    assert("tray context menu"@.len() == 17);
    assert("tray checkbox items"@.len() == 19);
    assert("tray menu updates"@.len() == 17);
    assert(a.shown().len() == b.shown().len());
    assert(a.shown()[5] == b.shown()[5]);
    assert("tray context menu"@[5] == 'c');
    assert("tray menu updates"@[5] == 'm');
}

/// A builder collects what it is given, each value in its place, and forgets
/// nothing that it was given before.
pub proof fn a_builder_collects_what_it_is_given(
    builder: TrayIconBuilder,
    word: &str,
    menu: MenuRef,
    handler: TrayAction,
    named: TrayIconBuilder,
    pictured: TrayIconBuilder,
    hovered: TrayIconBuilder,
    attached: TrayIconBuilder,
    clicked: TrayIconBuilder,
    doubled: TrayIconBuilder,
    config: TrayIconConfig,
)
    requires
        call_ensures(TrayIconBuilder::name, (builder, word), named),
        call_ensures(TrayIconBuilder::icon_path, (builder, word), pictured),
        call_ensures(TrayIconBuilder::tooltip, (builder, word), hovered),
        call_ensures(TrayIconBuilder::menu, (builder, menu), attached),
        call_ensures(TrayIconBuilder::on_click, (builder, handler), clicked),
        call_ensures(TrayIconBuilder::on_double_click, (builder, handler), doubled),
        call_ensures(TrayIconBuilder::build, (builder,), config),
    ensures
        named@.name == Some(word@) && named@.icon == builder@.icon && named@.tooltip
            == builder@.tooltip && named@.menu == builder@.menu && named@.on_click
            == builder@.on_click && named@.on_double_click == builder@.on_double_click,
        pictured@.icon == Some(SourceView::Path(word@)) && pictured@.name == builder@.name
            && pictured@.tooltip == builder@.tooltip && pictured@.menu == builder@.menu
            && pictured@.on_click == builder@.on_click && pictured@.on_double_click
            == builder@.on_double_click,
        hovered@.tooltip == word@ && hovered@.name == builder@.name && hovered@.icon
            == builder@.icon && hovered@.menu == builder@.menu && hovered@.on_click
            == builder@.on_click && hovered@.on_double_click == builder@.on_double_click,
        attached@.menu == Some(menu) && attached@.name == builder@.name && attached@.icon
            == builder@.icon && attached@.tooltip == builder@.tooltip && attached@.on_click
            == builder@.on_click && attached@.on_double_click == builder@.on_double_click,
        clicked@.on_click == Some(handler) && clicked@.on_double_click == builder@.on_double_click
            && clicked@.name == builder@.name && clicked@.icon == builder@.icon && clicked@.tooltip
            == builder@.tooltip && clicked@.menu == builder@.menu,
        doubled@.on_double_click == Some(handler) && doubled@.on_click == builder@.on_click
            && doubled@.name == builder@.name && doubled@.icon == builder@.icon && doubled@.tooltip
            == builder@.tooltip && doubled@.menu == builder@.menu,
        config@.name == (if builder@.name is Some {
            builder@.name->0
        } else {
            "UDA"@
        }),
        config@.icon == builder@.icon && config@.tooltip == builder@.tooltip && config@.menu
            == builder@.menu && config@.on_click == builder@.on_click && config@.on_double_click
            == builder@.on_double_click,
{
}

/// Hiding, showing, attaching and detaching a menu change that and nothing else
/// of an icon; an icon is shut down once.
pub proof fn a_change_of_an_icon_is_that_change_alone(
    hidden: &mut TrayIcon,
    shown: &mut TrayIcon,
    attached: &mut TrayIcon,
    detached: &mut TrayIcon,
    stopped: &mut TrayIcon,
    menu: MenuRef,
    first: bool,
)
    requires
        call_ensures(TrayIcon::hide_icon, (hidden,), ()),
        call_ensures(TrayIcon::show, (shown,), ()),
        call_ensures(TrayIcon::set_menu, (attached, menu), ()),
        call_ensures(TrayIcon::clear_menu, (detached,), ()),
        call_ensures(TrayIcon::shut_down, (stopped,), first),
    ensures
        !final(hidden).state().visible && is_same_but_visible(
            old(hidden).state(),
            final(hidden).state(),
        ) && final(hidden).state().menu == old(hidden).state().menu && final(hidden).spec_name()
            == old(hidden).spec_name(),
        final(shown).state().visible && is_same_but_visible(
            old(shown).state(),
            final(shown).state(),
        ) && final(shown).state().menu == old(shown).state().menu && final(shown).spec_name()
            == old(shown).spec_name(),
        final(attached).state().menu == Some(menu) && is_same_but_visible(
            old(attached).state(),
            final(attached).state(),
        ) && final(attached).state().visible == old(attached).state().visible,
        final(detached).state().menu is None && is_same_but_visible(
            old(detached).state(),
            final(detached).state(),
        ) && final(detached).state().visible == old(detached).state().visible,
        first <==> !old(stopped).state().shutdown,
        final(stopped).state().shutdown,
        final(stopped).state().visible == old(stopped).state().visible,
{
}

/// Whether two states agree in all but the visibility and the menu.
pub open spec fn is_same_but_visible(a: StateView, b: StateView) -> bool {
    a.tooltip == b.tooltip && a.icon == b.icon && a.shutdown == b.shutdown && a.capabilities
        == b.capabilities
}

/// A new hover text replaces the old one, within 127 characters; a new image does
/// if it is valid, and a refused one leaves the old image and tells the reason.
pub proof fn an_icon_shows_what_it_was_given(
    hovered: &mut TrayIcon,
    pictured: &mut TrayIcon,
    tooltip: &str,
    source: TrayIconSource,
    res: Result<(), UdaError>,
)
    requires
        call_ensures(TrayIcon::set_tooltip, (hovered, tooltip), ()),
        call_ensures(TrayIcon::set_icon, (pictured, source), res),
    ensures
        tooltip@.len() <= 127 ==> final(hovered).state().tooltip == tooltip@,
        tooltip@.len() > 127 ==> final(hovered).state().tooltip == tooltip@.take(127),
        final(hovered).state().icon == old(hovered).state().icon,
        final(hovered).state().menu == old(hovered).state().menu,
        final(hovered).state().visible == old(hovered).state().visible,
        res is Ok <==> source@.is_valid(),
        res is Ok ==> final(pictured).state().icon == Some(source@),
        res is Err ==> final(pictured).state() == old(pictured).state() && res->Err_0@
            is NotSupported,
        final(pictured).state().tooltip == old(pictured).state().tooltip,
        final(pictured).state().menu == old(pictured).state().menu,
        final(pictured).state().visible == old(pictured).state().visible,
{
}

/// An icon tells its state as it is.
pub proof fn an_icon_tells_its_state(
    icon: TrayIcon,
    name: &str,
    tooltip: String,
    menu: Option<MenuRef>,
    visible: bool,
    capabilities: Capability,
    feature: TrayFeature,
    level: SupportLevel,
)
    requires
        call_ensures(TrayIcon::name, (&icon,), name),
        call_ensures(TrayIcon::tooltip, (&icon,), tooltip),
        call_ensures(TrayIcon::menu, (&icon,), menu),
        call_ensures(TrayIcon::is_visible, (&icon,), visible),
        call_ensures(TrayIcon::capabilities, (&icon,), capabilities),
        call_ensures(TrayIcon::support_level, (&icon, feature), level),
    ensures
        name@ == icon.spec_name(),
        tooltip@ == icon.state().tooltip,
        menu == icon.state().menu,
        visible == icon.state().visible,
        capabilities@ == icon.state().capabilities,
        capabilities@ & 0x80 != 0x80 ==> level == SupportLevel::Unsupported,
        capabilities@ & 0x80 == 0x80 && feature == TrayFeature::Icon ==> level
            == SupportLevel::Full,
        capabilities@ & 0x80 == 0x80 && feature == TrayFeature::Tooltip ==> level == (
        if tooltip@.len() > 80 {
            SupportLevel::Partial
        } else {
            SupportLevel::Full
        }),
        capabilities@ & 0x80 == 0x80 && feature != TrayFeature::Icon && feature
            != TrayFeature::Tooltip ==> level == (if capabilities@ & feature.flag()
            == feature.flag() {
            SupportLevel::Full
        } else {
            SupportLevel::Unsupported
        }),
{
}

} // verus!
