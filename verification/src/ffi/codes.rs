//! The integers that stand for themes, fill modes and wake locks.

use crate::capability::Theme;
use crate::ffi::error::{Failure, FailureView};
use crate::text::{holds, parts_are_found_where_they_stand, show_signed, signed_decimal};
use crate::wakelock::WakeLockType;
use crate::wallpaper::FillMode;
use vstd::prelude::*;

verus! {

/// Theme code for "unknown / not detected".
pub const UDA_THEME_UNKNOWN: i32 = 0;

/// Theme code for "dark".
pub const UDA_THEME_DARK: i32 = 1;

/// Theme code for "light".
pub const UDA_THEME_LIGHT: i32 = 2;

/// Fill-mode code for "crop to fill, preserving aspect ratio".
pub const UDA_FILL_CROP: i32 = 0;

/// Fill-mode code for "fill, ignoring aspect ratio".
pub const UDA_FILL_FILL: i32 = 1;

/// Fill-mode code for "fit, preserving aspect ratio".
pub const UDA_FILL_FIT: i32 = 2;

/// Fill-mode code for "stretch to fill".
pub const UDA_FILL_STRETCH: i32 = 3;

/// Wake-lock code for "prevent the display from sleeping".
pub const UDA_WAKELOCK_DISPLAY: i32 = 0;

/// Wake-lock code for "prevent the system from idling".
pub const UDA_WAKELOCK_SYSTEM: i32 = 1;

/// The code of a theme. One that follows the system has no code of its own and
/// is reported as unknown: either of the others would be a guess.
pub open spec fn code_of_theme(theme: Theme) -> i32 {
    match theme {
        Theme::Dark => UDA_THEME_DARK,
        Theme::Light => UDA_THEME_LIGHT,
        Theme::Auto => UDA_THEME_UNKNOWN,
    }
}

/// Translate a theme into its code.
pub fn theme_code(theme: Theme) -> (code: i32)
    ensures
        code == code_of_theme(theme),
{
    match theme {
        Theme::Dark => UDA_THEME_DARK,
        Theme::Light => UDA_THEME_LIGHT,
        Theme::Auto => UDA_THEME_UNKNOWN,
    }
}

/// The fill mode a code stands for.
pub open spec fn fill_mode_of(code: i32) -> Option<FillMode> {
    if code == UDA_FILL_CROP {
        Some(FillMode::Crop)
    } else if code == UDA_FILL_FILL {
        Some(FillMode::Fill)
    } else if code == UDA_FILL_FIT {
        Some(FillMode::Fit)
    } else if code == UDA_FILL_STRETCH {
        Some(FillMode::Stretch)
    } else {
        None
    }
}

/// Map a fill-mode code onto the fill mode it stands for.
pub fn fill_mode_from_c(code: i32) -> (res: Result<FillMode, Failure>)
    ensures
        res is Ok <==> fill_mode_of(code) is Some,
        res matches Ok(mode) ==> fill_mode_of(code) == Some(mode),
        res matches Err(failure) ==> failure@ == FailureView::InvalidArgument(
            "unknown fill_mode "@ + signed_decimal(code as int) + "; expected 0..=3"@,
        ),
{
    if code == UDA_FILL_CROP {
        Ok(FillMode::Crop)
    } else if code == UDA_FILL_FILL {
        Ok(FillMode::Fill)
    } else if code == UDA_FILL_FIT {
        Ok(FillMode::Fit)
    } else if code == UDA_FILL_STRETCH {
        Ok(FillMode::Stretch)
    } else {
        Err(
            Failure::InvalidArgument(
                "unknown fill_mode ".to_owned().concat(show_signed(code).as_str()).concat(
                    "; expected 0..=3",
                ),
            ),
        )
    }
}

/// The wake lock a code stands for.
pub open spec fn lock_type_of(code: i32) -> Option<WakeLockType> {
    if code == UDA_WAKELOCK_DISPLAY {
        Some(WakeLockType::PreventDisplaySleep)
    } else if code == UDA_WAKELOCK_SYSTEM {
        Some(WakeLockType::PreventSystemIdle)
    } else {
        None
    }
}

/// Map a wake-lock code onto the lock it stands for.
pub fn wake_lock_type_from_c(code: i32) -> (res: Result<WakeLockType, Failure>)
    ensures
        res is Ok <==> lock_type_of(code) is Some,
        res matches Ok(lock_type) ==> lock_type_of(code) == Some(lock_type),
        res matches Err(failure) ==> failure@ == FailureView::InvalidArgument(
            "unknown lock_type "@ + signed_decimal(code as int) + "; expected 0..=1"@,
        ),
{
    if code == UDA_WAKELOCK_DISPLAY {
        Ok(WakeLockType::PreventDisplaySleep)
    } else if code == UDA_WAKELOCK_SYSTEM {
        Ok(WakeLockType::PreventSystemIdle)
    } else {
        Err(
            Failure::InvalidArgument(
                "unknown lock_type ".to_owned().concat(show_signed(code).as_str()).concat(
                    "; expected 0..=1",
                ),
            ),
        )
    }
}

/// Two codes that stand for the same fill mode, or for the same wake lock, are
/// the same code; and every fill mode and wake lock has one.
pub proof fn codes_are_one_to_one(a: i32, b: i32, mode: FillMode, lock_type: WakeLockType)
    ensures
        fill_mode_of(a) is Some && fill_mode_of(a) == fill_mode_of(b) ==> a == b,
        lock_type_of(a) is Some && lock_type_of(a) == lock_type_of(b) ==> a == b,
        exists|code: i32| #[trigger] fill_mode_of(code) == Some(mode),
        exists|code: i32| #[trigger] lock_type_of(code) == Some(lock_type),
{
    assert(fill_mode_of(0) == Some(FillMode::Crop));
    assert(fill_mode_of(1) == Some(FillMode::Fill));
    assert(fill_mode_of(2) == Some(FillMode::Fit));
    assert(fill_mode_of(3) == Some(FillMode::Stretch));
    assert(lock_type_of(0) == Some(WakeLockType::PreventDisplaySleep));
    assert(lock_type_of(1) == Some(WakeLockType::PreventSystemIdle));
}

/// Dark is 1 and light is 2; a theme that follows the system is 0. The fill modes
/// are numbered 0 to 3 and the wake locks 0 and 1, and no other code stands for
/// anything.
pub proof fn codes_are_what_callers_were_given(code: i32)
    ensures
        code_of_theme(Theme::Dark) == 1,
        code_of_theme(Theme::Light) == 2,
        code_of_theme(Theme::Auto) == 0,
        fill_mode_of(code) == Some(FillMode::Crop) <==> code == 0,
        fill_mode_of(code) == Some(FillMode::Fill) <==> code == 1,
        fill_mode_of(code) == Some(FillMode::Fit) <==> code == 2,
        fill_mode_of(code) == Some(FillMode::Stretch) <==> code == 3,
        fill_mode_of(code) is None <==> code < 0 || code > 3,
        lock_type_of(code) == Some(WakeLockType::PreventDisplaySleep) <==> code == 0,
        lock_type_of(code) == Some(WakeLockType::PreventSystemIdle) <==> code == 1,
        lock_type_of(code) is None <==> code < 0 || code > 1,
{
}

/// A code that stands for nothing is the caller's mistake, and is told back.
pub proof fn an_unknown_code_is_told_back(
    code: i32,
    mode: Result<FillMode, Failure>,
    lock: Result<WakeLockType, Failure>,
)
    requires
        call_ensures(fill_mode_from_c, (code,), mode),
        call_ensures(wake_lock_type_from_c, (code,), lock),
    ensures
        mode is Ok <==> 0 <= code <= 3,
        lock is Ok <==> 0 <= code <= 1,
        mode matches Err(failure) ==> failure@ is InvalidArgument && holds(
            failure@->InvalidArgument_0,
            signed_decimal(code as int),
        ),
        lock matches Err(failure) ==> failure@ is InvalidArgument && holds(
            failure@->InvalidArgument_0,
            signed_decimal(code as int),
        ),
{
    let number = signed_decimal(code as int);
    parts_are_found_where_they_stand("unknown fill_mode "@, number, "; expected 0..=3"@);
    parts_are_found_where_they_stand("unknown lock_type "@, number, "; expected 0..=1"@);
}

} // verus!
