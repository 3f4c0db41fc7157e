//! Which desktop a Linux session runs.

use crate::text::{
    ascii_lowercase, ascii_lowercased, contains, folding_touches_only_capitals, holds,
};
use vstd::prelude::*;

verus! {

/// Detected desktop environment.
#[derive(Debug, Clone, Copy, PartialEq, Eq, Structural)]
pub enum DesktopEnvironment {
    Unknown,
    Gnome,
    Kde,
    Xfce,
}

impl Default for DesktopEnvironment {
    fn default() -> (desktop: Self)
        ensures
            desktop == DesktopEnvironment::Unknown,
    {
        DesktopEnvironment::Unknown
    }
}

/// The desktop that the two variables name. ASCII case does not matter, and the
/// first of GNOME, KDE and XFCE that either names wins.
pub open spec fn named_desktop(current: Seq<char>, session: Seq<char>) -> DesktopEnvironment {
    let c = ascii_lowercased(current);
    let s = ascii_lowercased(session);
    if holds(c, "gnome"@) || holds(s, "gnome"@) {
        DesktopEnvironment::Gnome
    } else if holds(c, "kde"@) || holds(s, "kde"@) || holds(s, "plasma"@) {
        DesktopEnvironment::Kde
    } else if holds(c, "xfce"@) || holds(s, "xfce"@) {
        DesktopEnvironment::Xfce
    } else {
        DesktopEnvironment::Unknown
    }
}

impl DesktopEnvironment {
    /// Infer the desktop environment from environment variables.
    pub fn infer(xdg_current_desktop: &str, desktop_session: &str) -> (desktop: Self)
        ensures
            desktop == named_desktop(xdg_current_desktop@, desktop_session@),
    {
        let current = ascii_lowercase(xdg_current_desktop);
        let session = ascii_lowercase(desktop_session);
        if contains(current.as_str(), "gnome") || contains(session.as_str(), "gnome") {
            DesktopEnvironment::Gnome
        } else if contains(current.as_str(), "kde") || contains(session.as_str(), "kde")
            || contains(session.as_str(), "plasma") {
            DesktopEnvironment::Kde
        } else if contains(current.as_str(), "xfce") || contains(session.as_str(), "xfce") {
            DesktopEnvironment::Xfce
        } else {
            DesktopEnvironment::Unknown
        }
    }
}

/// Structured Linux desktop environment information.
#[derive(Debug, PartialEq, Eq)]
pub struct EnvironmentInfo {
    /// Detected desktop environment.
    pub desktop_environment: DesktopEnvironment,
    /// `XDG_CURRENT_DESKTOP` value when present.
    pub xdg_current_desktop: Option<String>,
    /// `XDG_SESSION_TYPE` value when present.
    pub xdg_session_type: Option<String>,
    /// `DESKTOP_SESSION` value when present.
    pub desktop_session: Option<String>,
    /// `WAYLAND_DISPLAY` value when present.
    pub wayland_display: Option<String>,
    /// `DISPLAY` value when present.
    pub display: Option<String>,
}

impl Default for EnvironmentInfo {
    fn default() -> (info: Self)
        ensures
            info == (EnvironmentInfo {
                desktop_environment: DesktopEnvironment::Unknown,
                xdg_current_desktop: None,
                xdg_session_type: None,
                desktop_session: None,
                wayland_display: None,
                display: None,
            }),
    {
        EnvironmentInfo {
            desktop_environment: DesktopEnvironment::Unknown,
            xdg_current_desktop: None,
            xdg_session_type: None,
            desktop_session: None,
            wayland_display: None,
            display: None,
        }
    }
}

/// A variable's value; an absent one counts as empty.
pub open spec fn value_or_empty(value: Option<String>) -> Seq<char> {
    match value {
        Some(text) => text@,
        None => Seq::empty(),
    }
}

/// Describe the session from the values of `XDG_CURRENT_DESKTOP`,
/// `XDG_SESSION_TYPE`, `DESKTOP_SESSION`, `WAYLAND_DISPLAY` and `DISPLAY`.
pub fn detect_environment(
    xdg_current_desktop: Option<String>,
    xdg_session_type: Option<String>,
    desktop_session: Option<String>,
    wayland_display: Option<String>,
    display: Option<String>,
) -> (info: EnvironmentInfo)
    ensures
        info == (EnvironmentInfo {
            desktop_environment: named_desktop(
                value_or_empty(xdg_current_desktop),
                value_or_empty(desktop_session),
            ),
            xdg_current_desktop,
            xdg_session_type,
            desktop_session,
            wayland_display,
            display,
        }),
{
    let none = String::new();
    let current = match &xdg_current_desktop {
        Some(text) => text.as_str(),
        None => none.as_str(),
    };
    let session = match &desktop_session {
        Some(text) => text.as_str(),
        None => none.as_str(),
    };
    let desktop_environment = DesktopEnvironment::infer(current, session);
    EnvironmentInfo {
        desktop_environment,
        xdg_current_desktop,
        xdg_session_type,
        desktop_session,
        wayland_display,
        display,
    }
}

/// GNOME is named before KDE, and KDE before XFCE; Plasma is KDE in the session
/// alone. What names none of them is unknown, and capitals do not matter.
pub proof fn a_desktop_is_known_by_its_name(current: Seq<char>, session: Seq<char>)
    ensures
        ({
            let c = ascii_lowercased(current);
            let s = ascii_lowercased(session);
            let gnome = holds(c, "gnome"@) || holds(s, "gnome"@);
            let kde = holds(c, "kde"@) || holds(s, "kde"@) || holds(s, "plasma"@);
            let xfce = holds(c, "xfce"@) || holds(s, "xfce"@);
            let found = named_desktop(current, session);
            &&& found == DesktopEnvironment::Gnome <==> gnome
            &&& found == DesktopEnvironment::Kde <==> !gnome && kde
            &&& found == DesktopEnvironment::Xfce <==> !gnome && !kde && xfce
            &&& found == DesktopEnvironment::Unknown <==> !gnome && !kde && !xfce
            &&& found == named_desktop(c, s)
        }),
{
    folding_touches_only_capitals(current);
    folding_touches_only_capitals(session);
}

/// A session is described by the desktop that its variables name and by their
/// values as they are; a variable that is not there counts as empty.
pub proof fn a_session_keeps_its_variables(
    current: Option<String>,
    kind: Option<String>,
    session: Option<String>,
    wayland: Option<String>,
    display: Option<String>,
    info: EnvironmentInfo,
)
    requires
        call_ensures(detect_environment, (current, kind, session, wayland, display), info),
    ensures
        info.xdg_current_desktop == current,
        info.xdg_session_type == kind,
        info.desktop_session == session,
        info.wayland_display == wayland,
        info.display == display,
        info.desktop_environment == named_desktop(
            if current is Some {
                current->0@
            } else {
                Seq::empty()
            },
            if session is Some {
                session->0@
            } else {
                Seq::empty()
            },
        ),
{
}

} // verus!
