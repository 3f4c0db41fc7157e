use uda::capability::{Capability, Theme};
use uda::error::UdaError;
use uda::notification::Notification;
use uda::platform_windows::appearance::{
    next_call, RegistryCall, RegistryReply, WindowsAppearanceManager, DWORD_BYTES, ERROR_SUCCESS,
    PERSONALIZE_SUBKEY, REG_DWORD,
};
use uda::platform_windows::detection::{
    detect_environment, VersionReply, WindowsEnvironmentInfo, WindowsRelease,
};
use uda::platform_windows::icon_image::icon_from_source;
use uda::platform_windows::notification::{
    is_element_not_found, setting_failure, ToastStep, WindowsNotificationManager, BODY_XPATH,
    ELEMENT_NOT_FOUND_HRESULT, TITLE_XPATH,
};
use uda::platform_windows::wakelock::{
    WindowsWakeLockGuard, WindowsWakeLockManager, ES_CONTINUOUS, ES_DISPLAY_REQUIRED,
    ES_SYSTEM_REQUIRED,
};
use uda::platform_windows::wallpaper::{
    WallpaperCall, WallpaperStep, WindowsWallpaperManager, CONTROL_PANEL_DESKTOP_SUBKEY,
    MAX_PATH_CODE_UNITS, REG_SZ, TILE_WALLPAPER, WALLPAPER_STYLE,
};
use uda::tray::source::TrayIconSource;
use uda::utf16::{from_wide, to_fixed_utf16, to_wide};
use uda::wakelock::{WakeLockGuard, WakeLockType};
use uda::wallpaper::FillMode;

const FILL_MODES: [FillMode; 4] = [
    FillMode::Crop,
    FillMode::Fill,
    FillMode::Fit,
    FillMode::Stretch,
];

// Appearance ---------------------------------------------------------------

#[test]
fn appearance_to_wide_is_null_terminated() {
    let wide = to_wide("AppsUseLightTheme");
    assert_eq!(wide.last().copied(), Some(0));
    assert!(!wide[..wide.len() - 1].contains(&0));
}

#[test]
fn to_wide_handles_empty_string() {
    let wide = to_wide("");
    assert_eq!(wide, vec![0]);
}

#[test]
fn theme_from_light_flag_maps_zero_to_dark() {
    assert_eq!(
        WindowsAppearanceManager::theme_from_light_flag(0),
        Some(Theme::Dark)
    );
}

#[test]
fn theme_from_light_flag_maps_one_to_light() {
    assert_eq!(
        WindowsAppearanceManager::theme_from_light_flag(1),
        Some(Theme::Light)
    );
}

#[test]
fn theme_from_light_flag_rejects_unknown_values() {
    assert_eq!(WindowsAppearanceManager::theme_from_light_flag(2), None);
    assert_eq!(
        WindowsAppearanceManager::theme_from_light_flag(u32::MAX),
        None
    );
}

#[test]
fn capabilities_reports_theme_detection() {
    let manager = WindowsAppearanceManager::new();
    let caps = match manager.capabilities() {
        Ok(caps) => caps,
        Err(e) => panic!("capabilities failed: {}", e.message()),
    };
    assert_eq!(caps, Capability::of(Capability::DETECT_THEME));
    assert!(!caps.contains(Capability::READ_ACCENT_COLOR));
}

#[test]
fn personalization_subkey_matches_specification() {
    assert_eq!(
        PERSONALIZE_SUBKEY,
        "Software\\Microsoft\\Windows\\CurrentVersion\\Themes\\Personalize"
    );
}

#[test]
fn pcwstr_from_buffer_is_non_null() {
    // The registry is handed a pointer to the buffer; a buffer is never empty
    // and therefore never yields a null pointer.
    let buffer = to_wide("AppsUseLightTheme");
    assert!(!buffer.is_empty());
    assert!(!buffer.as_ptr().is_null());
}

fn reply(status: u32) -> RegistryReply {
    RegistryReply {
        status,
        value_type: REG_DWORD,
        byte_len: DWORD_BYTES,
        data: 7,
    }
}

#[test]
fn a_number_is_read_in_three_calls_and_the_key_is_closed() {
    let mut call = RegistryCall::OpenKey;
    let mut calls = Vec::new();
    while !matches!(call, RegistryCall::Finished(_)) {
        calls.push(call);
        call = next_call(call, &reply(ERROR_SUCCESS));
    }
    assert_eq!(
        calls,
        vec![
            RegistryCall::OpenKey,
            RegistryCall::QuerySize,
            RegistryCall::ReadValue,
            RegistryCall::CloseKey(Some(7))
        ]
    );
    assert_eq!(call, RegistryCall::Finished(Some(7)));
}

#[test]
fn a_missing_or_foreign_value_is_no_number() {
    assert_eq!(
        next_call(RegistryCall::OpenKey, &reply(2)),
        RegistryCall::Finished(None)
    );
    let mut text = reply(ERROR_SUCCESS);
    text.value_type = REG_SZ;
    assert_eq!(
        next_call(RegistryCall::QuerySize, &text),
        RegistryCall::CloseKey(None)
    );
    let mut long = reply(ERROR_SUCCESS);
    long.byte_len = 8;
    assert_eq!(
        next_call(RegistryCall::QuerySize, &long),
        RegistryCall::CloseKey(None)
    );
    assert_eq!(
        next_call(RegistryCall::ReadValue, &reply(5)),
        RegistryCall::CloseKey(None)
    );
}

#[test]
fn registry_constants_are_those_of_win32() {
    assert_eq!(REG_DWORD, 4);
    assert_eq!(ERROR_SUCCESS, 0);
}

#[test]
fn the_system_value_stands_in_for_a_missing_app_value() {
    let manager = WindowsAppearanceManager::new();
    assert!(!WindowsAppearanceManager::needs_system_value(Some(0)));
    assert!(WindowsAppearanceManager::needs_system_value(Some(9)));
    assert!(WindowsAppearanceManager::needs_system_value(None));
    assert!(matches!(
        manager.detect_theme(Some(0), Some(1)),
        Ok(Theme::Dark)
    ));
    assert!(matches!(
        manager.detect_theme(Some(9), Some(1)),
        Ok(Theme::Light)
    ));
    match manager.detect_theme(None, None) {
        Err(UdaError::NotSupported(text)) => assert_eq!(
            text,
            "Windows theme preference registry values are not available"
        ),
        other => panic!("unexpected result {other:?}"),
    }
    assert!(matches!(
        manager.get_accent_color(),
        Err(UdaError::NotSupported(_))
    ));
}

// Version ------------------------------------------------------------------

#[test]
fn build_numbers_map_to_release_families() {
    assert_eq!(WindowsRelease::from_build(7601), WindowsRelease::Legacy);
    assert_eq!(WindowsRelease::from_build(9200), WindowsRelease::Eight);
    assert_eq!(WindowsRelease::from_build(9600), WindowsRelease::Eight);
    assert_eq!(WindowsRelease::from_build(10240), WindowsRelease::Ten);
    assert_eq!(WindowsRelease::from_build(14393), WindowsRelease::Ten);
    assert_eq!(WindowsRelease::from_build(16299), WindowsRelease::Modern);
    assert_eq!(WindowsRelease::from_build(22000), WindowsRelease::Modern);
    assert_eq!(WindowsRelease::from_build(26100), WindowsRelease::Modern);
}

#[test]
fn legacy_and_eight_do_not_expose_dark_mode_registry() {
    assert!(!WindowsRelease::Legacy.supports_dark_mode_registry());
    assert!(!WindowsRelease::Eight.supports_dark_mode_registry());
    assert!(!WindowsRelease::Ten.supports_dark_mode_registry());
}

#[test]
fn modern_release_exposes_dark_mode_registry() {
    assert!(WindowsRelease::Modern.supports_dark_mode_registry());
}

#[test]
fn default_release_is_legacy() {
    // A conservative default: assume the oldest supported OS until proven
    // otherwise, so features are never advertised before they exist.
    assert_eq!(
        WindowsEnvironmentInfo::default().release,
        WindowsRelease::Legacy
    );
}

#[test]
fn zero_build_is_legacy() {
    assert_eq!(WindowsRelease::from_build(0), WindowsRelease::Legacy);
}

#[test]
fn detection_from_wide_stops_at_null_terminator() {
    let buffer = vec![u16::from(b'S'), u16::from(b'P'), 0, u16::from(b'x')];
    assert_eq!(from_wide(&buffer), "SP");
}

#[test]
fn detection_from_wide_handles_empty_buffer() {
    assert_eq!(from_wide(&vec![0]), "");
    assert_eq!(from_wide(&Vec::new()), "");
}

fn version(status: i32) -> VersionReply {
    let mut service_pack = to_wide("Service Pack 1");
    service_pack.push(u16::from(b'x'));
    VersionReply {
        status,
        major: 6,
        minor: 1,
        build: 7601,
        service_pack,
    }
}

#[test]
fn detect_environment_reports_a_sane_release() {
    let info = match detect_environment(&version(0)) {
        Ok(info) => info,
        Err(e) => panic!("detect_environment failed: {}", e.message()),
    };
    assert!(info.major_version >= 6);
    assert!(info.build_number >= 7600);
    assert!(!info.service_pack.contains(char::from(0)));
    assert_eq!(info.service_pack, "Service Pack 1");
    assert_eq!(info.minor_version, 1);
    assert_eq!(info.release, WindowsRelease::Legacy);
}

#[test]
fn a_refused_version_query_names_its_status() {
    match detect_environment(&version(-1073741811)) {
        Err(UdaError::Internal(text)) => {
            assert_eq!(text, "RtlGetVersion failed with NTSTATUS 0xc000000d")
        }
        other => panic!("unexpected result {other:?}"),
    }
}

// Notifications ------------------------------------------------------------

#[test]
fn xpaths_select_the_template_text_nodes() {
    assert_eq!(TITLE_XPATH, "/toast/visual/binding/text[1]");
    assert_eq!(BODY_XPATH, "/toast/visual/binding/text[2]");
}

#[test]
fn title_and_body_xpaths_are_distinct() {
    assert_ne!(TITLE_XPATH, BODY_XPATH);
}

#[test]
fn notification_default_is_usable_as_a_toast() {
    let notification = Notification::default();
    assert!(notification.summary.is_empty());
    assert!(notification.body.is_empty());
    assert!(notification.actions.is_empty());
}

#[test]
fn capabilities_report_notification_support() {
    let manager = WindowsNotificationManager::new();
    let caps = match manager.capabilities() {
        Ok(caps) => caps,
        Err(e) => panic!("capabilities failed: {}", e.message()),
    };
    assert_eq!(caps, Capability::of(Capability::SEND_NOTIFICATION));
}

#[test]
fn element_not_found_hresult_is_documented() {
    // The constant must equal the signed i32 reading of 0x80070490, which is
    // what an `HRESULT` reports.
    assert_eq!(ELEMENT_NOT_FOUND_HRESULT, 0x8007_0490_u32 as i32);
    assert_eq!(ELEMENT_NOT_FOUND_HRESULT as u32, 0x8007_0490);
    assert!(is_element_not_found(ELEMENT_NOT_FOUND_HRESULT));
    assert!(!is_element_not_found(0));
}

#[test]
fn a_toast_writes_both_texts_before_it_is_shown() {
    let notification = Notification {
        summary: "title".to_string(),
        body: "text".to_string(),
        ..Notification::default()
    };
    let mut step = ToastStep::first();
    let mut written = Vec::new();
    let mut steps = 0;
    while !matches!(step, ToastStep::Done(_)) {
        if let Some(text) = step.text(&notification) {
            written.push(text.to_string());
        }
        if step == ToastStep::Show {
            assert_eq!(written, vec!["title", "text"]);
        }
        step = step.next();
        steps += 1;
    }
    assert_eq!(steps, 10);
    assert_eq!(step, ToastStep::Done(0));
}

#[test]
fn a_missing_identity_is_not_an_internal_error() {
    match ToastStep::CreateNotifier.failure(ELEMENT_NOT_FOUND_HRESULT, "x") {
        UdaError::NotSupported(_) => {}
        other => panic!("unexpected error {other:?}"),
    }
    assert_eq!(
        ToastStep::CreateNotifier.failure(-1, "x").message(),
        "Internal error: CreateToastNotifier failed: x"
    );
    assert_eq!(
        ToastStep::SelectBody.failure(-1, "x").message(),
        "Internal error: SelectNodes(/toast/visual/binding/text[2]) failed: x"
    );
    assert_eq!(
        setting_failure("x").message(),
        "Internal error: NotificationSetting query failed: x"
    );
}

// Wake locks ---------------------------------------------------------------

fn contains(state: u32, flag: u32) -> bool {
    state & flag == flag
}

#[test]
fn execution_state_always_includes_continuous() {
    for lock_type in [
        WakeLockType::PreventDisplaySleep,
        WakeLockType::PreventSystemIdle,
    ] {
        let state = WindowsWakeLockManager::execution_state(lock_type);
        assert!(
            contains(state, ES_CONTINUOUS),
            "{lock_type:?} must include ES_CONTINUOUS"
        );
    }
}

#[test]
fn display_sleep_lock_requires_display_only() {
    let state = WindowsWakeLockManager::execution_state(WakeLockType::PreventDisplaySleep);
    assert!(contains(state, ES_DISPLAY_REQUIRED));
    assert!(!contains(state, ES_SYSTEM_REQUIRED));
}

#[test]
fn system_idle_lock_requires_display_and_system() {
    let state = WindowsWakeLockManager::execution_state(WakeLockType::PreventSystemIdle);
    assert!(contains(state, ES_DISPLAY_REQUIRED));
    assert!(contains(state, ES_SYSTEM_REQUIRED));
}

#[test]
fn execution_state_flags_are_those_of_win32() {
    assert_eq!(ES_SYSTEM_REQUIRED, 1);
    assert_eq!(ES_DISPLAY_REQUIRED, 2);
    assert_eq!(ES_CONTINUOUS, 0x8000_0000);
}

#[test]
fn execution_state_bits_match_documented_values() {
    assert_eq!(
        WindowsWakeLockManager::execution_state(WakeLockType::PreventDisplaySleep),
        ES_CONTINUOUS | ES_DISPLAY_REQUIRED
    );
    assert_eq!(
        WindowsWakeLockManager::execution_state(WakeLockType::PreventSystemIdle),
        ES_CONTINUOUS | ES_DISPLAY_REQUIRED | ES_SYSTEM_REQUIRED
    );
}

/// Counts how often a release action ran.
#[derive(Default)]
struct Counter {
    runs: std::cell::Cell<usize>,
}

impl Counter {
    fn run(&self, action: Option<u32>) {
        if action.is_some() {
            self.runs.set(self.runs.get() + 1);
        }
    }
}

/// A guard whose pending action runs when it goes away.
struct Spy<'a> {
    guard: WindowsWakeLockGuard<u32>,
    counter: &'a Counter,
}

impl<'a> Spy<'a> {
    fn new(counter: &'a Counter) -> Self {
        Spy {
            guard: WindowsWakeLockGuard::new(WakeLockGuard::new(1)),
            counter,
        }
    }

    fn release_internal(&mut self) {
        let action = self.guard.release_internal();
        self.counter.run(action);
    }
}

impl Drop for Spy<'_> {
    fn drop(&mut self) {
        self.release_internal();
    }
}

#[test]
fn guard_starts_active_and_release_marks_it_inactive() {
    let counter = Counter::default();
    let mut spy = Spy::new(&counter);
    assert!(spy.guard.is_active());
    assert_eq!(counter.runs.get(), 0);

    spy.release_internal();

    assert!(!spy.guard.is_active());
    assert_eq!(counter.runs.get(), 1);
}

#[test]
fn guard_release_is_idempotent() {
    let counter = Counter::default();
    let mut spy = Spy::new(&counter);
    spy.release_internal();
    // Second call must be a no-op rather than another round-trip.
    spy.release_internal();
    assert!(!spy.guard.is_active());
    assert_eq!(counter.runs.get(), 1);
}

#[test]
fn guard_drop_runs_the_release_closure_once() {
    let counter = Counter::default();
    let spy = Spy::new(&counter);
    assert!(spy.guard.is_active());
    drop(spy);
    assert_eq!(counter.runs.get(), 1);
}

#[test]
fn guard_release_then_drop_runs_the_closure_once() {
    let counter = Counter::default();
    let guard = WindowsWakeLockGuard::new(WakeLockGuard::new(1));
    counter.run(guard.release());
    assert_eq!(counter.runs.get(), 1);

    let mut spy = Spy::new(&counter);
    spy.release_internal();
    drop(spy);
    assert_eq!(counter.runs.get(), 2);
}

#[test]
fn acquire_closure_is_the_documented_release_call() {
    // Releasing restores the default execution state.
    let mut guard = match WindowsWakeLockManager::new().acquired(1) {
        Ok(guard) => guard,
        Err(error) => panic!("acquire failed: {}", error.message()),
    };
    let counter = Counter::default();
    let action = guard.release();
    assert_eq!(action, Some(ES_CONTINUOUS));
    counter.run(action);
    counter.run(guard.release());
    assert_eq!(counter.runs.get(), 1);
}

#[test]
fn a_refused_execution_state_is_an_error() {
    match WindowsWakeLockManager::new().acquired(0) {
        Err(UdaError::Internal(text)) => assert_eq!(
            text,
            "SetThreadExecutionState failed; wake locks cannot be changed from a power notification callback"
        ),
        _ => panic!("a previous state of 0 is a refusal"),
    }
}

// Wallpaper ----------------------------------------------------------------

#[test]
fn wallpaper_style_fill_maps_to_fill_ten() {
    assert_eq!(
        WindowsWallpaperManager::wallpaper_style_values(FillMode::Fill),
        ("10", "0")
    );
}

#[test]
fn wallpaper_style_fit_maps_to_fit_six() {
    // Windows 7+ supports "fit" natively; it must not be mapped to tiling.
    assert_eq!(
        WindowsWallpaperManager::wallpaper_style_values(FillMode::Fit),
        ("6", "0")
    );
}

#[test]
fn wallpaper_style_stretch_maps_to_stretch_two() {
    assert_eq!(
        WindowsWallpaperManager::wallpaper_style_values(FillMode::Stretch),
        ("2", "0")
    );
}

#[test]
fn wallpaper_style_crop_reuses_fill() {
    // Windows has no native crop mode, so it falls back to "fill".
    assert_eq!(
        WindowsWallpaperManager::wallpaper_style_values(FillMode::Crop),
        ("10", "0")
    );
}

#[test]
fn wallpaper_style_tile_wallpaper_is_always_zero() {
    // No supported FillMode ever enables tiling, so TileWallpaper must be
    // the string "0" (never "1" and never a DWORD) for every mode.
    for fill_mode in FILL_MODES {
        let (style, tile) = WindowsWallpaperManager::wallpaper_style_values(fill_mode);
        assert_eq!(
            tile, "0",
            "TileWallpaper must be the string \"0\" for {fill_mode:?}, got \"{tile}\" (style \"{style}\")"
        );
    }
}

#[test]
fn wallpaper_style_values_are_decimal_strings() {
    // Explorer parses these values as strings, so every emitted value must
    // be pure ASCII digits with no sign, whitespace or empty payload.
    for fill_mode in FILL_MODES {
        let (style, tile) = WindowsWallpaperManager::wallpaper_style_values(fill_mode);
        for value in [style, tile] {
            assert!(
                !value.is_empty() && value.bytes().all(|b| b.is_ascii_digit()),
                "value for {fill_mode:?} is not a plain decimal string: \"{value}\""
            );
        }
    }
}

#[test]
fn wallpaper_style_values_are_known_windows_modes() {
    // Only the four styles Windows 7+ understands natively are allowed.
    let known_styles = ["10", "6", "2", "0"];
    for fill_mode in FILL_MODES {
        let (style, _tile) = WindowsWallpaperManager::wallpaper_style_values(fill_mode);
        assert!(
            known_styles.contains(&style),
            "unknown WallpaperStyle for {fill_mode:?}: \"{style}\""
        );
    }
}

#[test]
fn write_string_encodes_reg_sz_with_null_terminator() {
    // The byte length handed to the registry must cover the UTF-16 code units
    // *including* the trailing null terminator.
    let wide = to_wide("10");
    assert_eq!(wide, ['1' as u16, '0' as u16, 0]);
    assert_eq!(
        wide.len() * std::mem::size_of::<u16>(),
        3 * std::mem::size_of::<u16>()
    );
}

#[test]
fn registry_string_values_round_trip_through_utf16() {
    // The values written to the registry must survive a UTF-16 round trip
    // unchanged, i.e. the API receives exactly "10"/"0".
    for (mode, expected) in [
        (FillMode::Fill, "10"),
        (FillMode::Crop, "10"),
        (FillMode::Fit, "6"),
        (FillMode::Stretch, "2"),
    ] {
        let (style, _) = WindowsWallpaperManager::wallpaper_style_values(mode);
        assert_eq!(from_wide(&to_wide(style)), expected);
    }
}

#[test]
fn registry_value_type_is_reg_sz() {
    // Explorer reads WallpaperStyle/TileWallpaper as REG_SZ strings; a
    // REG_DWORD write makes the shell ignore the fill mode entirely.
    assert_eq!(REG_SZ, 1u32);
}

#[test]
fn wallpaper_to_wide_is_null_terminated() {
    let wide = to_wide("C:\\wall.jpg");
    assert_eq!(wide.last().copied(), Some(0));
}

#[test]
fn wallpaper_from_wide_stops_at_null_terminator() {
    let buffer = vec![u16::from(b'a'), u16::from(b'b'), 0, u16::from(b'x')];
    assert_eq!(from_wide(&buffer), "ab");
}

#[test]
fn from_wide_handles_unterminated_buffer() {
    let buffer = vec![u16::from(b'a'), u16::from(b'b')];
    assert_eq!(from_wide(&buffer), "ab");
}

#[test]
fn wallpaper_from_wide_handles_empty_buffer() {
    assert_eq!(from_wide(&vec![0]), "");
    assert_eq!(from_wide(&Vec::new()), "");
}

/// Set a wallpaper with registry calls that report the given statuses.
fn set_wallpaper(path: &str, status: fn(WallpaperCall) -> u32) -> (Vec<WallpaperCall>, Result<(), UdaError>) {
    let mut call = WallpaperCall::OpenKey;
    let mut calls = Vec::new();
    loop {
        calls.push(call);
        match WindowsWallpaperManager::next_call(call, status(call), path) {
            WallpaperStep::Call(next) => call = next,
            WallpaperStep::Done(result) => return (calls, result),
        }
    }
}

fn success(_call: WallpaperCall) -> u32 {
    ERROR_SUCCESS
}

#[test]
fn empty_path_is_rejected() {
    match set_wallpaper("", success).1 {
        Err(UdaError::NotSupported(_)) => {}
        other => panic!("expected NotSupported, got {other:?}"),
    }
}

#[test]
fn over_long_path_is_rejected() {
    let long_path = "C:\\".to_string() + &"a".repeat(MAX_PATH_CODE_UNITS);
    match set_wallpaper(&long_path, success).1 {
        Err(UdaError::NotSupported(_)) => {}
        other => panic!("expected NotSupported, got {other:?}"),
    }
    // The terminator counts, so 259 code units are the most.
    assert!(WindowsWallpaperManager::applicable(&"a".repeat(259)).is_ok());
    assert!(WindowsWallpaperManager::applicable(&"a".repeat(260)).is_err());
}

#[test]
fn capabilities_report_set_and_get() {
    let manager = WindowsWallpaperManager::new();
    let caps = match manager.capabilities() {
        Ok(caps) => caps,
        Err(e) => panic!("capabilities failed: {}", e.message()),
    };
    assert_eq!(
        caps,
        Capability::of(Capability::SET_WALLPAPER | Capability::GET_WALLPAPER)
    );
}

#[test]
fn control_panel_desktop_subkey_matches_specification() {
    assert_eq!(CONTROL_PANEL_DESKTOP_SUBKEY, "Control Panel\\Desktop");
}

#[test]
fn value_names_match_specification() {
    assert_eq!(WALLPAPER_STYLE, "WallpaperStyle");
    assert_eq!(TILE_WALLPAPER, "TileWallpaper");
}

#[test]
fn max_path_limit_matches_win32() {
    assert_eq!(MAX_PATH_CODE_UNITS, 260);
}

#[test]
fn the_style_is_written_before_the_image_is_applied() {
    let (calls, result) = set_wallpaper("C:\\wall.jpg", success);
    assert_eq!(
        calls,
        vec![
            WallpaperCall::OpenKey,
            WallpaperCall::WriteStyle,
            WallpaperCall::WriteTile,
            WallpaperCall::CloseKey,
            WallpaperCall::Apply,
        ]
    );
    assert!(result.is_ok());
    assert_eq!(
        WindowsWallpaperManager::written(WallpaperCall::WriteStyle, FillMode::Fit),
        Some((WALLPAPER_STYLE, to_wide("6")))
    );
    assert_eq!(
        WindowsWallpaperManager::written(WallpaperCall::WriteTile, FillMode::Fit),
        Some((TILE_WALLPAPER, to_wide("0")))
    );
    assert_eq!(
        WindowsWallpaperManager::written(WallpaperCall::Apply, FillMode::Fit),
        None
    );
}

#[test]
fn a_failed_write_closes_the_key_and_names_the_status() {
    let (calls, result) = set_wallpaper("C:\\wall.jpg", |call| {
        if call == WallpaperCall::WriteTile { 5 } else { ERROR_SUCCESS }
    });
    assert_eq!(calls.last().copied(), Some(WallpaperCall::CloseFailed(5)));
    match result {
        Err(UdaError::Internal(text)) => {
            assert_eq!(text, "RegSetValueExW failed with Win32 error 5")
        }
        other => panic!("unexpected result {other:?}"),
    }
    let (_, result) = set_wallpaper("C:\\wall.jpg", |_| 2);
    match result {
        Err(UdaError::Internal(text)) => assert_eq!(
            text,
            "RegCreateKeyExW(HKCU\\Control Panel\\Desktop) failed with Win32 error 2"
        ),
        other => panic!("unexpected result {other:?}"),
    }
    assert_eq!(
        WindowsWallpaperManager::apply_error("w", "bad", 3).message(),
        "Internal error: SPI_SETDESKWALLPAPER failed for 'w': bad (last error 3)"
    );
}

#[test]
fn an_empty_reported_path_is_no_wallpaper() {
    let manager = WindowsWallpaperManager::new();
    assert_eq!(manager.get_wallpaper(&None), None);
    assert_eq!(manager.get_wallpaper(&Some(vec![0, 0x61])), None);
    assert_eq!(
        manager.get_wallpaper(&Some(to_wide("C:\\w.jpg"))),
        Some("C:\\w.jpg".to_string())
    );
}

// UTF-16 and icons ---------------------------------------------------------

#[test]
fn broken_surrogates_decode_like_the_standard_library_does() {
    for units in [
        vec![0xD83D, 0xDE00],
        vec![0xDE00, 0xD83D],
        vec![0xD83D],
        vec![0xD83D, 0x61],
        vec![0xD83D, 0xD83D, 0xDE00, 0xDC00],
        vec![0xDBFF, 0xDFFF, 0xE000, 0xD7FF],
    ] {
        assert_eq!(from_wide(&units), String::from_utf16_lossy(&units), "{units:x?}");
    }
    for text in ["a\u{1F600}b", "\u{10FFFF}", "\u{FFFF}", "\u{10000}"] {
        let mut units: Vec<u16> = text.encode_utf16().collect();
        units.push(0);
        assert_eq!(to_wide(text), units);
    }
}

#[test]
fn a_surrogate_pair_is_never_split_by_a_fixed_field() {
    let field = to_fixed_utf16::<4>("ab\u{1F600}");
    assert_eq!(field, vec![0x61, 0x62, 0, 0]);
    let field = to_fixed_utf16::<5>("ab\u{1F600}c");
    assert_eq!(field, vec![0x61, 0x62, 0xD83D, 0xDE00, 0]);
}

#[test]
fn an_icon_image_is_top_down_with_a_clear_mask() {
    let source = TrayIconSource::Rgba {
        width: 1,
        height: 2,
        stride: 4,
        data: vec![1, 2, 3, 4, 5, 6, 7, 8],
    };
    let image = icon_from_source(&source).expect("a valid buffer has an image");
    assert_eq!((image.width, image.height, image.header_height), (1, 2, -2));
    assert_eq!(image.image_bytes, 8);
    assert_eq!(image.pixels, vec![3, 2, 1, 4, 7, 6, 5, 8]);
    assert_eq!(image.mask, vec![0; 4]);
    assert!(icon_from_source(&TrayIconSource::Path("a.ico".to_string())).is_none());
}
