//! What a backend can do, and the small value types its answers are made of.

use vstd::prelude::*;

verus! {

/// Bit values of the capability flags.
#[derive(Debug, Clone, Copy, PartialEq, Eq, Hash)]
pub struct CapabilityMatrix;

impl CapabilityMatrix {
    /// The system theme can be read.
    pub const DETECT_THEME: u32 = 0x0001;

    /// The wallpaper can be replaced.
    pub const SET_WALLPAPER: u32 = 0x0002;

    /// The wallpaper can be read.
    pub const GET_WALLPAPER: u32 = 0x0004;

    /// The accent colour can be read.
    pub const READ_ACCENT_COLOR: u32 = 0x0008;

    /// Theme changes are followed.
    pub const FOLLOW_SYSTEM_THEME: u32 = 0x0010;

    /// Notifications can be sent.
    pub const SEND_NOTIFICATION: u32 = 0x0020;

    /// Wake locks can be held.
    pub const WAKE_LOCK: u32 = 0x0040;

    /// A tray mechanism is reachable at all.
    pub const SYSTEM_TRAY: u32 = 0x0080;

    /// A tray icon can be shown and hidden.
    pub const TRAY_ICON: u32 = 0x0100;

    /// Hover text is shown.
    pub const TRAY_TOOLTIP: u32 = 0x0200;

    /// A single click is reported.
    pub const TRAY_CLICK: u32 = 0x0400;

    /// A double click is reported natively.
    pub const TRAY_DOUBLE_CLICK: u32 = 0x0800;

    /// A context menu is shown.
    pub const TRAY_CONTEXT_MENU: u32 = 0x1000;

    /// Checkbox rows are rendered as checkboxes.
    pub const TRAY_CHECKBOX: u32 = 0x2000;

    /// A menu may change while the icon is registered.
    pub const TRAY_DYNAMIC_MENU: u32 = 0x4000;
}

/// A set of capability flags.
#[derive(Debug, Clone, Copy, PartialEq, Eq, Hash, Structural)]
pub struct Capability {
    bits: u32,
}

impl Capability {
    pub const DETECT_THEME: u32 = CapabilityMatrix::DETECT_THEME;

    pub const SET_WALLPAPER: u32 = CapabilityMatrix::SET_WALLPAPER;

    pub const GET_WALLPAPER: u32 = CapabilityMatrix::GET_WALLPAPER;

    pub const READ_ACCENT_COLOR: u32 = CapabilityMatrix::READ_ACCENT_COLOR;

    pub const FOLLOW_SYSTEM_THEME: u32 = CapabilityMatrix::FOLLOW_SYSTEM_THEME;

    pub const SEND_NOTIFICATION: u32 = CapabilityMatrix::SEND_NOTIFICATION;

    pub const WAKE_LOCK: u32 = CapabilityMatrix::WAKE_LOCK;

    pub const SYSTEM_TRAY: u32 = CapabilityMatrix::SYSTEM_TRAY;

    pub const TRAY_ICON: u32 = CapabilityMatrix::TRAY_ICON;

    pub const TRAY_TOOLTIP: u32 = CapabilityMatrix::TRAY_TOOLTIP;

    pub const TRAY_CLICK: u32 = CapabilityMatrix::TRAY_CLICK;

    pub const TRAY_DOUBLE_CLICK: u32 = CapabilityMatrix::TRAY_DOUBLE_CLICK;

    pub const TRAY_CONTEXT_MENU: u32 = CapabilityMatrix::TRAY_CONTEXT_MENU;

    pub const TRAY_CHECKBOX: u32 = CapabilityMatrix::TRAY_CHECKBOX;

    pub const TRAY_DYNAMIC_MENU: u32 = CapabilityMatrix::TRAY_DYNAMIC_MENU;

    /// The flags in the set, one bit each.
    pub closed spec fn view(self) -> u32 {
        self.bits
    }

    /// Whether every flag of `flags` is in the set.
    pub open spec fn has(self, flags: u32) -> bool {
        self@ & flags == flags
    }

    /// The set without any flag.
    pub fn empty() -> (set: Self)
        ensures
            set@ == 0,
    {
        Capability { bits: 0 }
    }

    /// The set holding exactly `flags`.
    pub fn of(flags: u32) -> (set: Self)
        ensures
            set@ == flags,
    {
        Capability { bits: flags }
    }

    /// The flags in the set, one bit each.
    pub fn bits(self) -> (flags: u32)
        ensures
            flags == self@,
    {
        self.bits
    }

    /// Whether every flag of `flags` is in the set.
    pub fn contains(self, flags: u32) -> (yes: bool)
        ensures
            yes == self.has(flags),
    {
        self.bits & flags == flags
    }

    /// The set with `flags` added.
    pub fn with(self, flags: u32) -> (set: Self)
        ensures
            set@ == self@ | flags,
    {
        Capability { bits: self.bits | flags }
    }

    /// Two sets holding the same flags are the same set.
    pub proof fn same_flags_same_set(a: Self, b: Self)
        requires
            a@ == b@,
        ensures
            a == b,
    {
    }
}

/// A set contains the flags it was made of, and adding flags keeps those it had.
pub proof fn capability_union_is_monotone(set: Capability, other: Capability, flags: u32)
    requires
        other@ == set@ | flags,
    ensures
        other.has(flags),
        forall|had: u32| set.has(had) ==> #[trigger] other.has(had),
{
    let a = set@;
    let u = other@;
    assert((a | flags) & flags == flags) by (bit_vector);
    assert forall|had: u32| set.has(had) implies #[trigger] other.has(had) by {
        assert((a | flags) & had == had) by (bit_vector)
            requires
                a & had == had,
        ;
    }
}

/// Only the empty set of flags is in the empty set.
pub proof fn empty_set_claims_nothing(set: Capability, flags: u32)
    requires
        set@ == 0,
        flags != 0,
    ensures
        !set.has(flags),
{
    assert(0u32 & flags == 0) by (bit_vector);
}

/// Support level for a specific capability on the current platform.
#[derive(Debug, Clone, Copy, PartialEq, Eq, Structural)]
pub enum SupportLevel {
    /// Capability is unavailable.
    Unsupported,
    /// Capability is partially available (e.g., limited monitors, modes, or formats).
    Partial,
    /// Capability is fully supported.
    Full,
}

/// System desktop theme / appearance mode.
#[derive(Debug, Clone, Copy, PartialEq, Eq, Structural)]
pub enum Theme {
    /// Light appearance.
    Light,
    /// Dark appearance.
    Dark,
    /// Follow system automatic switching.
    Auto,
}

/// RGBA color with per-channel 0..=255 values.
#[derive(Debug, Clone, Copy, PartialEq, Eq, Hash, Structural)]
pub struct RgbaColor {
    pub r: u8,
    pub g: u8,
    pub b: u8,
    pub a: u8,
}

/// Every flag is a bit of its own, in the order the flags are declared in.
pub proof fn every_flag_is_a_bit_of_its_own()
    ensures
        Capability::DETECT_THEME == 1,
        Capability::SET_WALLPAPER == 2 * Capability::DETECT_THEME,
        Capability::GET_WALLPAPER == 2 * Capability::SET_WALLPAPER,
        Capability::READ_ACCENT_COLOR == 2 * Capability::GET_WALLPAPER,
        Capability::FOLLOW_SYSTEM_THEME == 2 * Capability::READ_ACCENT_COLOR,
        Capability::SEND_NOTIFICATION == 2 * Capability::FOLLOW_SYSTEM_THEME,
        Capability::WAKE_LOCK == 2 * Capability::SEND_NOTIFICATION,
        Capability::SYSTEM_TRAY == 2 * Capability::WAKE_LOCK,
        Capability::TRAY_ICON == 2 * Capability::SYSTEM_TRAY,
        Capability::TRAY_TOOLTIP == 2 * Capability::TRAY_ICON,
        Capability::TRAY_CLICK == 2 * Capability::TRAY_TOOLTIP,
        Capability::TRAY_DOUBLE_CLICK == 2 * Capability::TRAY_CLICK,
        Capability::TRAY_CONTEXT_MENU == 2 * Capability::TRAY_DOUBLE_CLICK,
        Capability::TRAY_CHECKBOX == 2 * Capability::TRAY_CONTEXT_MENU,
        Capability::TRAY_DYNAMIC_MENU == 2 * Capability::TRAY_CHECKBOX,
{
}

/// Flags are in a set together exactly when each of them is.
pub proof fn flags_are_contained_one_by_one(set: Capability, a: u32, b: u32)
    ensures
        set.has(a | b) <==> set.has(a) && set.has(b),
        set.has(set@),
        set.has(0),
{
    let s = set@;
    assert(((s & (a | b)) == (a | b)) <==> (s & a == a && s & b == b)) by (bit_vector);
    assert(s & s == s && s & 0 == 0) by (bit_vector);
}

/// A set holds the flags it was made of; adding flags keeps those it had, and a
/// flag is contained exactly when its bit is set.
pub proof fn a_set_holds_its_flags(
    set: Capability,
    flags: u32,
    none: Capability,
    made: Capability,
    more: Capability,
    yes: bool,
)
    requires
        call_ensures(Capability::empty, (), none),
        call_ensures(Capability::of, (flags,), made),
        call_ensures(Capability::with, (set, flags), more),
        call_ensures(Capability::contains, (set, flags), yes),
    ensures
        none@ == 0,
        made@ == flags,
        more@ == set@ | flags,
        yes <==> set@ & flags == flags,
{
}

} // verus!
