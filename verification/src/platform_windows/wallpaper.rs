//! The Windows wallpaper: registry style values and `SystemParametersInfoW`.

use crate::capability::Capability;
use crate::error::{ErrorView, UdaError};
use crate::platform_windows::appearance::ERROR_SUCCESS;
use crate::text::{decimal, finishes_with, holds, parts_are_found_where_they_stand, show};
use crate::utf16::{
    before_nul, decoded, encoded, from_wide, to_wide, wide, wide_text_round_trips,
};
use crate::wallpaper::FillMode;
use vstd::prelude::*;

verus! {

/// Sub-key of the current user holding the desktop settings.
pub const CONTROL_PANEL_DESKTOP_SUBKEY: &'static str = "Control Panel\\Desktop";

/// Registry value controlling how the wallpaper is stretched.
pub const WALLPAPER_STYLE: &'static str = "WallpaperStyle";

/// Registry value controlling tiling.
pub const TILE_WALLPAPER: &'static str = "TileWallpaper";

/// The registry type of a string. Explorer ignores style values of another type.
pub const REG_SZ: u32 = 1;

/// Maximum length of a wallpaper path in UTF-16 code units, terminator included.
pub const MAX_PATH_CODE_UNITS: usize = 260;

/// The `WallpaperStyle` of a fill mode. Windows has no crop mode of its own, and
/// filling is the closest to it.
pub open spec fn style_of(fill_mode: FillMode) -> Seq<char> {
    match fill_mode {
        FillMode::Fill => "10"@,
        FillMode::Crop => "10"@,
        FillMode::Fit => "6"@,
        FillMode::Stretch => "2"@,
    }
}

/// The `TileWallpaper` of every fill mode: no mode tiles.
pub open spec fn tile_of(fill_mode: FillMode) -> Seq<char> {
    "0"@
}

/// What is answered for a path that cannot be applied.
pub open spec fn path_error(path: Seq<char>) -> Option<ErrorView> {
    if path.len() == 0 {
        Some(ErrorView::NotSupported("wallpaper path must not be empty"@))
    } else if wide(path).len() > MAX_PATH_CODE_UNITS {
        Some(
            ErrorView::NotSupported(
                "wallpaper path exceeds the Windows MAX_PATH limit ("@ + decimal(260)
                    + " UTF-16 code units)"@,
            ),
        )
    } else {
        None
    }
}

/// One Win32 call on the way to a new wallpaper.
///
/// Both style values are written, and before the wallpaper is applied: the
/// desktop would otherwise be drawn in the previous style.
#[derive(Debug, Clone, Copy, PartialEq, Eq, Structural)]
pub enum WallpaperCall {
    /// Open the desktop key for writing.
    OpenKey,
    /// Write the style.
    WriteStyle,
    /// Write the tiling.
    WriteTile,
    /// Close the key; every value was written.
    CloseKey,
    /// Close the key; the write that failed reported this status.
    CloseFailed(u32),
    /// Apply the path.
    Apply,
}

/// What a call leads to.
pub enum WallpaperStep {
    /// Another call.
    Call(WallpaperCall),
    /// The outcome.
    Done(Result<(), UdaError>),
}

/// What a [`WallpaperStep`] says.
#[verifier::ext_equal]
pub enum WallpaperStepView {
    Call(WallpaperCall),
    Done(Result<(), ErrorView>),
}

impl View for WallpaperStep {
    type V = WallpaperStepView;

    open spec fn view(&self) -> WallpaperStepView {
        match *self {
            WallpaperStep::Call(call) => WallpaperStepView::Call(call),
            WallpaperStep::Done(Ok(())) => WallpaperStepView::Done(Ok(())),
            WallpaperStep::Done(Err(error)) => WallpaperStepView::Done(Err(error@)),
        }
    }
}

/// What a call that reported `status` leads to. Before the path is applied it is
/// checked; a path that cannot be applied ends the attempt.
pub open spec fn following_call(call: WallpaperCall, status: u32, path: Seq<char>)
    -> WallpaperStepView {
    match call {
        WallpaperCall::OpenKey => if status == ERROR_SUCCESS {
            WallpaperStepView::Call(WallpaperCall::WriteStyle)
        } else {
            WallpaperStepView::Done(
                Err(
                    ErrorView::Internal(
                        "RegCreateKeyExW(HKCU\\"@ + CONTROL_PANEL_DESKTOP_SUBKEY@
                            + ") failed with Win32 error "@ + decimal(status as nat),
                    ),
                ),
            )
        },
        WallpaperCall::WriteStyle => if status == ERROR_SUCCESS {
            WallpaperStepView::Call(WallpaperCall::WriteTile)
        } else {
            WallpaperStepView::Call(WallpaperCall::CloseFailed(status))
        },
        WallpaperCall::WriteTile => if status == ERROR_SUCCESS {
            WallpaperStepView::Call(WallpaperCall::CloseKey)
        } else {
            WallpaperStepView::Call(WallpaperCall::CloseFailed(status))
        },
        WallpaperCall::CloseKey => match path_error(path) {
            Some(error) => WallpaperStepView::Done(Err(error)),
            None => WallpaperStepView::Call(WallpaperCall::Apply),
        },
        WallpaperCall::CloseFailed(failed) => WallpaperStepView::Done(
            Err(
                ErrorView::Internal(
                    "RegSetValueExW failed with Win32 error "@ + decimal(failed as nat),
                ),
            ),
        ),
        WallpaperCall::Apply => WallpaperStepView::Done(Ok(())),
    }
}

/// A path that is empty or too long is refused, never applied; and the wallpaper
/// is applied only once both style values were written and the key was closed.
pub proof fn only_a_usable_path_is_applied(call: WallpaperCall, status: u32, path: Seq<char>)
    ensures
        following_call(call, status, path) == WallpaperStepView::Call(WallpaperCall::Apply) ==> call
            == WallpaperCall::CloseKey && 0 < path.len() && wide(path).len()
            <= MAX_PATH_CODE_UNITS,
        following_call(call, status, path) == WallpaperStepView::Call(WallpaperCall::CloseKey)
            ==> call == WallpaperCall::WriteTile && status == ERROR_SUCCESS,
        following_call(call, status, path) == WallpaperStepView::Call(WallpaperCall::WriteTile)
            ==> call == WallpaperCall::WriteStyle && status == ERROR_SUCCESS,
{
}

/// A key that was opened is closed, whether or not the writes succeeded.
pub proof fn the_desktop_key_is_closed(status: u32, path: Seq<char>)
    ensures
        !(following_call(WallpaperCall::WriteStyle, status, path) is Done),
        following_call(WallpaperCall::WriteTile, status, path) == WallpaperStepView::Call(
            if status == ERROR_SUCCESS {
                WallpaperCall::CloseKey
            } else {
                WallpaperCall::CloseFailed(status)
            },
        ),
{
}

/// Windows wallpaper manager. The image is applied to every monitor, and there
/// is no slot of its own for dark mode.
#[derive(Debug, Default, Clone, Copy)]
pub struct WindowsWallpaperManager;

impl WindowsWallpaperManager {
    /// A new manager.
    pub fn new() -> (manager: Self)
        ensures
            manager == WindowsWallpaperManager,
    {
        WindowsWallpaperManager
    }

    /// The `WallpaperStyle` and `TileWallpaper` of a fill mode, as the decimal
    /// strings that the registry stores.
    pub fn wallpaper_style_values(fill_mode: FillMode) -> (values: (&'static str, &'static str))
        ensures
            values.0@ == style_of(fill_mode),
            values.1@ == tile_of(fill_mode),
    {
        match fill_mode {
            FillMode::Fill => ("10", "0"),
            FillMode::Crop => ("10", "0"),
            FillMode::Fit => ("6", "0"),
            FillMode::Stretch => ("2", "0"),
        }
    }

    /// The name and the NUL-terminated data that a call writes.
    pub fn written(call: WallpaperCall, fill_mode: FillMode) -> (value: Option<
        (&'static str, Vec<u16>),
    >)
        ensures
            match call {
                WallpaperCall::WriteStyle => value matches Some(v) && v.0@ == WALLPAPER_STYLE@
                    && v.1@ == wide(style_of(fill_mode)),
                WallpaperCall::WriteTile => value matches Some(v) && v.0@ == TILE_WALLPAPER@
                    && v.1@ == wide(tile_of(fill_mode)),
                _ => value is None,
            },
    {
        let (style, tile) = WindowsWallpaperManager::wallpaper_style_values(fill_mode);
        match call {
            WallpaperCall::WriteStyle => Some((WALLPAPER_STYLE, to_wide(style))),
            WallpaperCall::WriteTile => Some((TILE_WALLPAPER, to_wide(tile))),
            _ => None,
        }
    }

    /// The NUL-terminated path to apply, or why it cannot be applied.
    pub fn applicable(path: &str) -> (res: Result<Vec<u16>, UdaError>)
        ensures
            res is Ok <==> path_error(path@) is None,
            res matches Ok(units) ==> units@ == wide(path@),
            res matches Err(error) ==> path_error(path@) == Some(error@),
    {
        if path.is_empty() {
            return Err(UdaError::NotSupported("wallpaper path must not be empty".to_owned()));
        }
        let units = to_wide(path);
        if units.len() > MAX_PATH_CODE_UNITS {
            return Err(
                UdaError::NotSupported(
                    "wallpaper path exceeds the Windows MAX_PATH limit (".to_owned().concat(
                        show(MAX_PATH_CODE_UNITS as u64).as_str(),
                    ).concat(" UTF-16 code units)"),
                ),
            );
        }
        Ok(units)
    }

    /// What a call that reported `status` leads to.
    pub fn next_call(call: WallpaperCall, status: u32, path: &str) -> (step: WallpaperStep)
        ensures
            step@ == following_call(call, status, path@),
    {
        match call {
            WallpaperCall::OpenKey => if status == ERROR_SUCCESS {
                WallpaperStep::Call(WallpaperCall::WriteStyle)
            } else {
                WallpaperStep::Done(
                    Err(
                        UdaError::Internal(
                            "RegCreateKeyExW(HKCU\\".to_owned().concat(
                                CONTROL_PANEL_DESKTOP_SUBKEY,
                            ).concat(") failed with Win32 error ").concat(
                                show(status as u64).as_str(),
                            ),
                        ),
                    ),
                )
            },
            WallpaperCall::WriteStyle => if status == ERROR_SUCCESS {
                WallpaperStep::Call(WallpaperCall::WriteTile)
            } else {
                WallpaperStep::Call(WallpaperCall::CloseFailed(status))
            },
            WallpaperCall::WriteTile => if status == ERROR_SUCCESS {
                WallpaperStep::Call(WallpaperCall::CloseKey)
            } else {
                WallpaperStep::Call(WallpaperCall::CloseFailed(status))
            },
            WallpaperCall::CloseKey => match WindowsWallpaperManager::applicable(path) {
                Err(error) => WallpaperStep::Done(Err(error)),
                Ok(_) => WallpaperStep::Call(WallpaperCall::Apply),
            },
            WallpaperCall::CloseFailed(failed) => WallpaperStep::Done(
                Err(
                    UdaError::Internal(
                        "RegSetValueExW failed with Win32 error ".to_owned().concat(
                            show(failed as u64).as_str(),
                        ),
                    ),
                ),
            ),
            WallpaperCall::Apply => WallpaperStep::Done(Ok(())),
        }
    }

    /// The error to report when applying the path fails.
    pub fn apply_error(path: &str, shown: &str, last_error: u32) -> (error: UdaError)
        ensures
            error@ == ErrorView::Internal(
                "SPI_SETDESKWALLPAPER failed for '"@ + path@ + "': "@ + shown@ + " (last error "@
                    + decimal(last_error as nat) + ")"@,
            ),
    {
        UdaError::Internal(
            "SPI_SETDESKWALLPAPER failed for '".to_owned().concat(path).concat("': ").concat(
                shown,
            ).concat(" (last error ").concat(show(last_error as u64).as_str()).concat(")"),
        )
    }

    /// The wallpaper path, from the NUL-terminated buffer the system filled in.
    /// There is none when the query failed or reported an empty path.
    pub fn get_wallpaper(&self, buffer: &Option<Vec<u16>>) -> (path: Option<String>)
        ensures
            match buffer {
                Some(units) => if decoded(before_nul(units@)).len() == 0 {
                    path is None
                } else {
                    path matches Some(p) && p@ == decoded(before_nul(units@))
                },
                None => path is None,
            },
    {
        match buffer {
            Some(units) => {
                let path = from_wide(units);
                if path.as_str().unicode_len() == 0 {
                    None
                } else {
                    Some(path)
                }
            },
            None => None,
        }
    }

    /// Both directions work on every supported build.
    pub fn capabilities(&self) -> (res: Result<Capability, UdaError>)
        ensures
            res matches Ok(capabilities) && capabilities@ == Capability::SET_WALLPAPER
                | Capability::GET_WALLPAPER,
    {
        Ok(Capability::of(Capability::SET_WALLPAPER | Capability::GET_WALLPAPER))
    }
}

/// Filling and cropping are style 10, fitting is 6 and stretching 2; no mode
/// tiles.
pub proof fn styles_are_numbered_as_explorer_knows_them(fill_mode: FillMode)
    ensures
        style_of(fill_mode) == (match fill_mode {
            FillMode::Fill => decimal(10),
            FillMode::Crop => decimal(10),
            FillMode::Fit => decimal(6),
            FillMode::Stretch => decimal(2),
        }),
        tile_of(fill_mode) == decimal(0),
{
    reveal_strlit("10");
    reveal_strlit("6");
    reveal_strlit("2");
    reveal_strlit("0");
    reveal_with_fuel(decimal, 2);
    assert(decimal(10) =~= "10"@);
    assert(decimal(6) =~= "6"@);
    assert(decimal(2) =~= "2"@);
    assert(decimal(0) =~= "0"@);
}

/// A path is refused exactly when it is empty or does not leave room for a
/// terminator in 260 code units, and is then never applied.
pub proof fn a_path_fits_in_260_units(path: Seq<char>, status: u32)
    ensures
        path_error(path) is Some <==> path.len() == 0 || encoded(path).len() >= 260,
        path_error(path) matches Some(error) ==> error is NotSupported,
        following_call(WallpaperCall::CloseKey, status, path) == (match path_error(path) {
            Some(error) => WallpaperStepView::Done(Err(error)),
            None => WallpaperStepView::Call(WallpaperCall::Apply),
        }),
{
}

/// While every call succeeds, the style is written, then the tiling, the key is
/// closed and the path applied, and the attempt succeeds.
pub proof fn a_usable_wallpaper_is_applied(path: Seq<char>, status: u32)
    requires
        path_error(path) is None,
    ensures
        following_call(WallpaperCall::OpenKey, 0, path) == WallpaperStepView::Call(
            WallpaperCall::WriteStyle,
        ),
        following_call(WallpaperCall::WriteStyle, 0, path) == WallpaperStepView::Call(
            WallpaperCall::WriteTile,
        ),
        following_call(WallpaperCall::WriteTile, 0, path) == WallpaperStepView::Call(
            WallpaperCall::CloseKey,
        ),
        following_call(WallpaperCall::CloseKey, status, path) == WallpaperStepView::Call(
            WallpaperCall::Apply,
        ),
        following_call(WallpaperCall::Apply, status, path) == WallpaperStepView::Done(Ok(())),
{
}

/// A call that fails ends the attempt with an error that ends with its status,
/// after the key was closed if it was open.
pub proof fn a_failed_write_is_reported(path: Seq<char>, status: u32, later: u32)
    requires
        status != 0,
    ensures
        following_call(WallpaperCall::OpenKey, status, path) matches WallpaperStepView::Done(
            Err(error),
        ) && error is Internal && finishes_with(error->Internal_0, decimal(status as nat)),
        following_call(WallpaperCall::WriteStyle, status, path) == WallpaperStepView::Call(
            WallpaperCall::CloseFailed(status),
        ),
        following_call(WallpaperCall::WriteTile, status, path) == WallpaperStepView::Call(
            WallpaperCall::CloseFailed(status),
        ),
        following_call(
            WallpaperCall::CloseFailed(status),
            later,
            path,
        ) matches WallpaperStepView::Done(Err(error)) && error is Internal && finishes_with(
            error->Internal_0,
            decimal(status as nat),
        ),
{
    let none = Seq::<char>::empty();
    let number = decimal(status as nat);
    parts_are_found_where_they_stand("RegSetValueExW failed with Win32 error "@, number, none);
    parts_are_found_where_they_stand(
        "RegCreateKeyExW(HKCU\\"@ + CONTROL_PANEL_DESKTOP_SUBKEY@ + ") failed with Win32 error "@,
        number,
        none,
    );
}

/// The wallpaper that was set is the one that is read, whatever the buffer holds
/// behind it.
pub proof fn a_wallpaper_reads_back(
    path: Seq<char>,
    tail: Seq<u16>,
    buffer: Option<Vec<u16>>,
    read: Option<String>,
)
    requires
        !path.contains('\0'),
        buffer matches Some(units) && units@ == wide(path) + tail,
        call_ensures(
            WindowsWallpaperManager::get_wallpaper,
            (&WindowsWallpaperManager, &buffer),
            read,
        ),
    ensures
        path.len() > 0 ==> (read matches Some(found) && found@ == path),
        path.len() == 0 ==> read is None,
{
    wide_text_round_trips(path, tail);
}

/// The style is written under its name as the number of the mode, the tiling as
/// 0, and no other call writes anything.
pub proof fn a_style_is_written_under_its_name(
    call: WallpaperCall,
    fill_mode: FillMode,
    value: Option<(&'static str, Vec<u16>)>,
)
    requires
        call_ensures(WindowsWallpaperManager::written, (call, fill_mode), value),
    ensures
        value is Some <==> call == WallpaperCall::WriteStyle || call == WallpaperCall::WriteTile,
        call == WallpaperCall::WriteStyle ==> (value matches Some((name, data)) && name@
            == "WallpaperStyle"@ && data@ == wide(style_of(fill_mode))),
        call == WallpaperCall::WriteTile ==> (value matches Some((name, data)) && name@
            == "TileWallpaper"@ && data@ == wide(decimal(0))),
{
    styles_are_numbered_as_explorer_knows_them(fill_mode);
}

/// A path that can be applied is applied as it is, and reads back; a failure to
/// apply it names the path and ends with what went wrong.
pub proof fn a_path_is_applied_as_it_is(
    path: &str,
    res: Result<Vec<u16>, UdaError>,
    shown: &str,
    last_error: u32,
    error: UdaError,
)
    requires
        call_ensures(WindowsWallpaperManager::applicable, (path,), res),
        call_ensures(WindowsWallpaperManager::apply_error, (path, shown, last_error), error),
    ensures
        res is Ok <==> path@.len() > 0 && encoded(path@).len() < 260,
        res matches Ok(units) ==> units@ == encoded(path@).push(0),
        res matches Err(refused) ==> refused@ is NotSupported,
        error@ is Internal,
        holds(error@->Internal_0, path@),
        holds(error@->Internal_0, shown@),
        holds(error@->Internal_0, decimal(last_error as nat)),
{
    let a = "SPI_SETDESKWALLPAPER failed for '"@;
    let b = "': "@;
    let c = " (last error "@;
    let d = ")"@;
    let n = decimal(last_error as nat);
    let text = a + path@ + b + shown@ + c + n + d;
    parts_are_found_where_they_stand(a, path@, b + shown@ + c + n + d);
    assert(a + path@ + (b + shown@ + c + n + d) =~= text);
    parts_are_found_where_they_stand(a + path@ + b, shown@, c + n + d);
    assert(a + path@ + b + shown@ + (c + n + d) =~= text);
    parts_are_found_where_they_stand(a + path@ + b + shown@ + c, n, d);
}

} // verus!
