//! Dark or light, from the Windows registry.

use crate::capability::{Capability, RgbaColor, Theme};
use crate::error::{ErrorView, UdaError};
use vstd::prelude::*;

verus! {

/// Sub-key of the current user holding the personalization values.
pub const PERSONALIZE_SUBKEY: &'static str = "Software\\Microsoft\\Windows\\CurrentVersion\\Themes\\Personalize";

/// DWORD value describing the app (not system) light/dark preference.
pub const APPS_USE_LIGHT_THEME: &'static str = "AppsUseLightTheme";

/// DWORD value describing the system (taskbar) light/dark preference.
pub const SYSTEM_USES_LIGHT_THEME: &'static str = "SystemUsesLightTheme";

/// The Win32 status of a call that succeeded.
pub const ERROR_SUCCESS: u32 = 0;

/// The registry type of a 32-bit number.
pub const REG_DWORD: u32 = 4;

/// The size of a 32-bit number, in bytes.
pub const DWORD_BYTES: u32 = 4;

// ---------------------------------------------------------------------------
// Reading a number
// ---------------------------------------------------------------------------
/// The registry call to make while a number is read.
///
/// The size and the type are asked for first, so that a value which was retyped
/// by policy or by another tool is never read as a number.
#[derive(Debug, Clone, Copy, PartialEq, Eq, Structural)]
pub enum RegistryCall {
    /// Open the key for reading.
    OpenKey,
    /// Ask for the type and the size of the value.
    QuerySize,
    /// Read the value into four bytes.
    ReadValue,
    /// Close the key; the result of doing so does not matter.
    CloseKey(Option<u32>),
    /// Nothing more to do; this is what was read.
    Finished(Option<u32>),
}

/// What a registry call answered. Each call fills in what it reports.
#[derive(Debug, Clone, Copy, PartialEq, Eq, Structural)]
pub struct RegistryReply {
    /// The Win32 status of the call.
    pub status: u32,
    /// The type of the value.
    pub value_type: u32,
    /// The size of the value.
    pub byte_len: u32,
    /// The number that was read.
    pub data: u32,
}

/// What follows a registry call.
pub open spec fn following_call(call: RegistryCall, reply: RegistryReply) -> RegistryCall {
    match call {
        RegistryCall::OpenKey => if reply.status == ERROR_SUCCESS {
            RegistryCall::QuerySize
        } else {
            RegistryCall::Finished(None)
        },
        RegistryCall::QuerySize => if reply.status == ERROR_SUCCESS && reply.value_type == REG_DWORD
            && reply.byte_len == DWORD_BYTES {
            RegistryCall::ReadValue
        } else {
            RegistryCall::CloseKey(None)
        },
        RegistryCall::ReadValue => if reply.status == ERROR_SUCCESS {
            RegistryCall::CloseKey(Some(reply.data))
        } else {
            RegistryCall::CloseKey(None)
        },
        RegistryCall::CloseKey(value) => RegistryCall::Finished(value),
        RegistryCall::Finished(value) => RegistryCall::Finished(value),
    }
}

/// The calls that read one number, given what each of them would answer.
pub open spec fn dword_read(
    open: RegistryReply,
    size: RegistryReply,
    read: RegistryReply,
    close: RegistryReply,
) -> RegistryCall {
    let sized = following_call(RegistryCall::OpenKey, open);
    let next = following_call(sized, size);
    let last = following_call(next, read);
    following_call(last, close)
}

/// Reading always comes to an end. A number is reported exactly when the key
/// could be opened, the value is a number of four bytes and could be read; a key
/// or a value that is missing is no failure.
pub proof fn a_number_is_read_only_from_a_number(
    open: RegistryReply,
    size: RegistryReply,
    read: RegistryReply,
    close: RegistryReply,
)
    ensures
        dword_read(open, size, read, close) == RegistryCall::Finished(
            if open.status == ERROR_SUCCESS && size.status == ERROR_SUCCESS && size.value_type
                == REG_DWORD && size.byte_len == DWORD_BYTES && read.status == ERROR_SUCCESS {
                Some(read.data)
            } else {
                None
            },
        ),
{
}

/// A key that was opened is closed before the reading ends: from any call made
/// on an open key, only closing it leads to the end.
pub proof fn an_open_key_is_closed(call: RegistryCall, reply: RegistryReply)
    requires
        call == RegistryCall::QuerySize || call == RegistryCall::ReadValue,
    ensures
        !(following_call(call, reply) is Finished),
        call == RegistryCall::ReadValue ==> following_call(call, reply) is CloseKey,
{
}

/// What follows a registry call while a number is read.
pub fn next_call(call: RegistryCall, reply: &RegistryReply) -> (next: RegistryCall)
    ensures
        next == following_call(call, *reply),
{
    match call {
        RegistryCall::OpenKey => if reply.status == ERROR_SUCCESS {
            RegistryCall::QuerySize
        } else {
            RegistryCall::Finished(None)
        },
        RegistryCall::QuerySize => if reply.status == ERROR_SUCCESS && reply.value_type == REG_DWORD
            && reply.byte_len == DWORD_BYTES {
            RegistryCall::ReadValue
        } else {
            RegistryCall::CloseKey(None)
        },
        RegistryCall::ReadValue => if reply.status == ERROR_SUCCESS {
            RegistryCall::CloseKey(Some(reply.data))
        } else {
            RegistryCall::CloseKey(None)
        },
        RegistryCall::CloseKey(value) => RegistryCall::Finished(value),
        RegistryCall::Finished(value) => RegistryCall::Finished(value),
    }
}

// ---------------------------------------------------------------------------
// The theme
// ---------------------------------------------------------------------------
/// The theme a light flag stands for.
pub open spec fn flagged_theme(flag: u32) -> Option<Theme> {
    if flag == 0 {
        Some(Theme::Dark)
    } else if flag == 1 {
        Some(Theme::Light)
    } else {
        None
    }
}

/// The theme that a value, if it is there, stands for.
pub open spec fn stored_theme(value: Option<u32>) -> Option<Theme> {
    match value {
        Some(flag) => flagged_theme(flag),
        None => None,
    }
}

/// What is answered when the registry does not tell the theme.
pub open spec fn no_theme_error() -> ErrorView {
    ErrorView::NotSupported("Windows theme preference registry values are not available"@)
}

/// What is answered when the accent colour is asked for.
pub open spec fn no_accent_error() -> ErrorView {
    ErrorView::NotSupported("Accent color detection is not supported on Windows in this phase"@)
}

/// Windows appearance manager. All state lives in the registry.
#[derive(Debug, Default, Clone, Copy)]
pub struct WindowsAppearanceManager;

impl WindowsAppearanceManager {
    /// A new manager.
    pub fn new() -> (manager: Self)
        ensures
            manager == WindowsAppearanceManager,
    {
        WindowsAppearanceManager
    }

    /// The theme a raw light flag stands for: 0 is dark, 1 is light, and any
    /// other value says nothing.
    pub fn theme_from_light_flag(flag: u32) -> (theme: Option<Theme>)
        ensures
            theme == flagged_theme(flag),
    {
        match flag {
            0 => Some(Theme::Dark),
            1 => Some(Theme::Light),
            _ => None,
        }
    }

    /// Whether the system value has to be read, given the app value.
    pub fn needs_system_value(apps_use_light: Option<u32>) -> (yes: bool)
        ensures
            yes == stored_theme(apps_use_light) is None,
    {
        match apps_use_light {
            Some(flag) => WindowsAppearanceManager::theme_from_light_flag(flag).is_none(),
            None => true,
        }
    }

    /// The theme, from the two registry values. The app value decides where it
    /// says something; the system value is consulted only otherwise.
    pub fn detect_theme(
        &self,
        apps_use_light: Option<u32>,
        system_uses_light: Option<u32>,
    ) -> (res: Result<Theme, UdaError>)
        ensures
            match stored_theme(apps_use_light) {
                Some(theme) => res == Ok::<Theme, UdaError>(theme),
                None => match stored_theme(system_uses_light) {
                    Some(theme) => res == Ok::<Theme, UdaError>(theme),
                    None => res matches Err(error) && error@ == no_theme_error(),
                },
            },
    {
        if let Some(flag) = apps_use_light {
            if let Some(theme) = WindowsAppearanceManager::theme_from_light_flag(flag) {
                return Ok(theme);
            }
        }
        if let Some(flag) = system_uses_light {
            if let Some(theme) = WindowsAppearanceManager::theme_from_light_flag(flag) {
                return Ok(theme);
            }
        }
        Err(
            UdaError::NotSupported(
                "Windows theme preference registry values are not available".to_owned(),
            ),
        )
    }

    /// The accent colour is not read: its registry layout differs between builds.
    pub fn get_accent_color(&self) -> (res: Result<RgbaColor, UdaError>)
        ensures
            res matches Err(error) && error@ == no_accent_error(),
    {
        Err(
            UdaError::NotSupported(
                "Accent color detection is not supported on Windows in this phase".to_owned(),
            ),
        )
    }

    /// Theme detection works on every supported build.
    pub fn capabilities(&self) -> (res: Result<Capability, UdaError>)
        ensures
            res matches Ok(capabilities) && capabilities@ == Capability::DETECT_THEME,
    {
        Ok(Capability::of(Capability::DETECT_THEME))
    }
}

/// A light flag of 0 is dark and one of 1 is light; no other number, and no
/// number, says anything.
pub proof fn a_light_flag_is_zero_for_dark(flag: u32)
    ensures
        flagged_theme(flag) == Some(Theme::Dark) <==> flag == 0,
        flagged_theme(flag) == Some(Theme::Light) <==> flag == 1,
        flagged_theme(flag) is None <==> flag > 1,
        stored_theme(Some(flag)) == flagged_theme(flag),
        stored_theme(None) is None,
{
}

/// The app value settles the theme wherever it is 0 or 1; the system value is
/// asked for, and settles it, only otherwise; and without either there is none.
pub proof fn the_app_value_comes_first(
    apps: Option<u32>,
    system: Option<u32>,
    res: Result<Theme, UdaError>,
    asked: bool,
)
    requires
        call_ensures(
            WindowsAppearanceManager::detect_theme,
            (&WindowsAppearanceManager, apps, system),
            res,
        ),
        call_ensures(WindowsAppearanceManager::needs_system_value, (apps,), asked),
    ensures
        apps == Some(0u32) ==> res == Ok::<Theme, UdaError>(Theme::Dark) && !asked,
        apps == Some(1u32) ==> res == Ok::<Theme, UdaError>(Theme::Light) && !asked,
        apps != Some(0u32) && apps != Some(1u32) ==> {
            &&& asked
            &&& system == Some(0u32) ==> res == Ok::<Theme, UdaError>(Theme::Dark)
            &&& system == Some(1u32) ==> res == Ok::<Theme, UdaError>(Theme::Light)
            &&& system != Some(0u32) && system != Some(1u32) ==> (res matches Err(error)
                && error@ is NotSupported)
        },
{
}

/// A number is a value of type 4 and of four bytes, and 0 is the status of
/// success. A key that could not be opened is neither read nor closed.
pub proof fn a_number_has_four_bytes(reply: RegistryReply)
    ensures
        reply.status != 0 ==> following_call(RegistryCall::OpenKey, reply)
            == RegistryCall::Finished(None),
        reply.status == 0 ==> following_call(RegistryCall::OpenKey, reply)
            == RegistryCall::QuerySize,
        following_call(RegistryCall::QuerySize, reply) == RegistryCall::ReadValue <==> reply.status
            == 0 && reply.value_type == 4 && reply.byte_len == 4,
        reply.status == 0 ==> following_call(RegistryCall::ReadValue, reply)
            == RegistryCall::CloseKey(Some(reply.data)),
        reply.status != 0 ==> following_call(RegistryCall::ReadValue, reply)
            == RegistryCall::CloseKey(None),
{
}

/// A registry call that succeeded is followed by the next, and the value that was
/// read is handed on while the key is closed.
pub proof fn a_value_is_handed_on_while_the_key_is_closed(
    reply: RegistryReply,
    data: Option<u32>,
    opened: RegistryCall,
    closed: RegistryCall,
)
    requires
        call_ensures(next_call, (RegistryCall::OpenKey, &reply), opened),
        call_ensures(next_call, (RegistryCall::CloseKey(data), &reply), closed),
    ensures
        opened == (if reply.status == 0 {
            RegistryCall::QuerySize
        } else {
            RegistryCall::Finished(None)
        }),
        closed == RegistryCall::Finished(data),
{
}

} // verus!
