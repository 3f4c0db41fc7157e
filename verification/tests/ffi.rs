use uda::capability::Theme;
use uda::error::UdaError;
use uda::ffi::boundary::{
    c_string_from, catch_boundary, owned_string_from, panic_description, LastMessage, Outcome,
};
use uda::ffi::codes::{
    fill_mode_from_c, theme_code, wake_lock_type_from_c, UDA_FILL_CROP, UDA_FILL_FILL,
    UDA_FILL_FIT, UDA_FILL_STRETCH, UDA_WAKELOCK_DISPLAY, UDA_WAKELOCK_SYSTEM,
};
use uda::ffi::dispatch::{
    cli_wallpaper_path, get_wallpaper_path, report_wallpaper, set_wallpaper, strip_file_scheme,
    WakeLockHandle,
};
use uda::ffi::error::{
    status_message, Failure, UDA_ERR_DETECTION_FAILED, UDA_ERR_INTERNAL, UDA_ERR_INVALID_ARGUMENT,
    UDA_ERR_IO, UDA_ERR_NOT_SUPPORTED, UDA_ERR_PANIC, UDA_OK,
};
use uda::ffi::tray::{icon_config, TrayRegistry};
use uda::ffi::wakelocks::{
    cli_failure, cli_lock_args, inhibit_what, report_granted, tier_after, LockEntry, LockRegistry,
    LockTier, Release, CLI_LOCK_SECONDS,
};
use uda::tray::event::{TrayCall, TrayEvent};
use uda::tray::icon::{TrayIcon, TrayIconInner};
use uda::tray::source::TrayIconSource;
use uda::wakelock::{WakeLockGuard, WakeLockType};
use uda::wallpaper::FillMode;

// Statuses -----------------------------------------------------------------

#[test]
fn status_codes_are_distinct_and_negative_on_failure() {
    let failures = [
        UDA_ERR_INVALID_ARGUMENT,
        UDA_ERR_NOT_SUPPORTED,
        UDA_ERR_DETECTION_FAILED,
        UDA_ERR_IO,
        UDA_ERR_INTERNAL,
        UDA_ERR_PANIC,
    ];
    for (index, code) in failures.iter().enumerate() {
        assert!(*code < 0, "failure codes must be negative: {code}");
        for other in &failures[index + 1..] {
            assert_ne!(code, other, "failure codes must be unique");
        }
    }
}

#[test]
fn invalid_argument_is_reported_before_the_typed_errors() {
    // Callers rely on `-1` being reserved for contract violations.
    assert_eq!(UDA_ERR_INVALID_ARGUMENT, -1);
}

#[test]
fn uda_errors_map_to_the_documented_codes() {
    let cases = [
        (UdaError::NotSupported("x".into()), UDA_ERR_NOT_SUPPORTED),
        (
            UdaError::DetectionFailed("x".into()),
            UDA_ERR_DETECTION_FAILED,
        ),
        (UdaError::CommandFailed("x".into()), UDA_ERR_INTERNAL),
        (UdaError::Internal("x".into()), UDA_ERR_INTERNAL),
        (UdaError::Io("x".into()), UDA_ERR_IO),
    ];
    for (error, expected) in cases {
        assert_eq!(Failure::Uda(error).status(), expected);
    }
    assert_eq!(
        Failure::from(UdaError::Io("x".into())).status(),
        UDA_ERR_IO
    );
}

#[test]
fn failure_messages_are_never_empty() {
    let failures = [
        Failure::InvalidArgument("`path` must not be null".to_string()),
        Failure::Uda(UdaError::NotSupported("no backend".to_string())),
    ];
    for failure in failures {
        assert!(!failure.message().is_empty());
    }
}

#[test]
fn every_documented_code_has_a_message() {
    for code in [
        UDA_OK,
        UDA_ERR_INVALID_ARGUMENT,
        UDA_ERR_NOT_SUPPORTED,
        UDA_ERR_DETECTION_FAILED,
        UDA_ERR_IO,
        UDA_ERR_INTERNAL,
        UDA_ERR_PANIC,
    ] {
        assert!(!status_message(code).is_empty());
    }
    assert_eq!(status_message(1234), "unrecognized status code");
}

#[test]
fn status_constants_match_the_error_module() {
    assert_eq!(UDA_OK, uda::ffi::error::UDA_OK);
    assert_eq!(
        UDA_ERR_INVALID_ARGUMENT,
        uda::ffi::error::UDA_ERR_INVALID_ARGUMENT
    );
    assert_eq!(UDA_ERR_NOT_SUPPORTED, uda::ffi::error::UDA_ERR_NOT_SUPPORTED);
    assert_eq!(UDA_ERR_PANIC, uda::ffi::error::UDA_ERR_PANIC);
    assert_eq!(
        (
            UDA_OK,
            UDA_ERR_NOT_SUPPORTED,
            UDA_ERR_DETECTION_FAILED,
            UDA_ERR_IO,
            UDA_ERR_INTERNAL,
            UDA_ERR_PANIC
        ),
        (0, -2, -3, -4, -5, -6)
    );
}

#[test]
fn status_message_pointer_is_readable_and_static() {
    assert_eq!(
        status_message(UDA_ERR_NOT_SUPPORTED),
        "feature not supported on this platform"
    );
}

// Codes --------------------------------------------------------------------

#[test]
fn theme_codes_match_the_c_header() {
    assert_eq!(theme_code(Theme::Dark), 1);
    assert_eq!(theme_code(Theme::Light), 2);
    // "Auto" has no C representation, so it is reported as unknown.
    assert_eq!(theme_code(Theme::Auto), 0);
}

#[test]
fn detect_theme_reports_a_documented_code() {
    for theme in [Theme::Dark, Theme::Light, Theme::Auto] {
        let code = theme_code(theme);
        assert!((0..=2).contains(&code), "unexpected theme code {code}");
    }
}

#[test]
fn fill_mode_codes_are_accepted_and_rejected() {
    assert!(fill_mode_from_c(UDA_FILL_CROP).is_ok());
    assert!(fill_mode_from_c(UDA_FILL_FILL).is_ok());
    assert!(fill_mode_from_c(UDA_FILL_FIT).is_ok());
    assert!(fill_mode_from_c(UDA_FILL_STRETCH).is_ok());

    for bad in [-1, 4, 99] {
        let failure = fill_mode_from_c(bad).expect_err("out-of-range code");
        assert_eq!(failure.status(), UDA_ERR_INVALID_ARGUMENT);
        assert!(failure.message().contains(&format!("{bad}")));
    }
}

#[test]
fn wake_lock_codes_are_accepted_and_rejected() {
    assert!(wake_lock_type_from_c(UDA_WAKELOCK_DISPLAY).is_ok());
    assert!(wake_lock_type_from_c(UDA_WAKELOCK_SYSTEM).is_ok());
    for bad in [-1, 2, 99] {
        let failure = wake_lock_type_from_c(bad).expect_err("out-of-range code");
        assert_eq!(failure.status(), UDA_ERR_INVALID_ARGUMENT);
    }
    match wake_lock_type_from_c(2) {
        Err(Failure::InvalidArgument(text)) => {
            assert_eq!(text, "unknown lock_type 2; expected 0..=1")
        }
        other => panic!("unexpected result {other:?}"),
    }
}

#[test]
fn every_code_stands_for_one_mode() {
    let modes: Vec<FillMode> = (0..=3)
        .filter_map(|code| fill_mode_from_c(code).ok())
        .collect();
    assert_eq!(
        modes,
        vec![FillMode::Crop, FillMode::Fill, FillMode::Fit, FillMode::Stretch]
    );
    assert!(matches!(
        wake_lock_type_from_c(UDA_WAKELOCK_DISPLAY),
        Ok(WakeLockType::PreventDisplaySleep)
    ));
    assert!(matches!(
        wake_lock_type_from_c(UDA_WAKELOCK_SYSTEM),
        Ok(WakeLockType::PreventSystemIdle)
    ));
}

// Dispatch -----------------------------------------------------------------

#[test]
fn handle_zero_is_not_a_valid_lock() {
    assert_eq!(WakeLockHandle::from_raw(0), None);
    let handle = WakeLockHandle::from_raw(7).expect("non-zero is a handle");
    assert_eq!(handle.raw(), 7);
    assert_eq!(WakeLockHandle::from_raw(handle.raw()), Some(handle));
}

#[test]
fn wakelock_release_of_zero_is_an_invalid_argument() {
    let failure = WakeLockHandle::argument(0).expect_err("0 is no handle");
    assert_eq!(failure.status(), UDA_ERR_INVALID_ARGUMENT);
}

#[test]
fn file_scheme_is_stripped_from_paths() {
    assert_eq!(
        strip_file_scheme("file:///home/user/wall.jpg"),
        "/home/user/wall.jpg"
    );
    assert_eq!(
        strip_file_scheme("/home/user/wall.jpg"),
        "/home/user/wall.jpg"
    );
}

#[test]
fn dispatch_set_wallpaper_rejects_an_empty_path() {
    let result = set_wallpaper("", FillMode::Fill);
    assert!(result.is_err(), "an empty path must be rejected");
    match set_wallpaper("/w.png", FillMode::Fit) {
        Ok(options) => assert_eq!(options.fill_mode, FillMode::Fit),
        Err(failure) => panic!("{}", failure.message()),
    }
}

#[test]
fn lib_set_wallpaper_rejects_an_empty_path() {
    let status = set_wallpaper("", FillMode::Fill)
        .expect_err("an empty path must fail")
        .status();
    assert!(status < 0, "an empty path must fail, got {status}");
}

#[test]
fn set_wallpaper_rejects_an_unknown_fill_mode() {
    let mut slot = LastMessage::new();
    let failure = fill_mode_from_c(42).expect_err("42 is no fill mode");
    let status = catch_boundary(&mut slot, Outcome::Failed(failure));
    assert_eq!(status, UDA_ERR_INVALID_ARGUMENT);
    assert!(slot.take_last_message().is_some());
}

#[test]
fn the_command_line_answers_where_the_backend_does_not() {
    assert_eq!(
        cli_wallpaper_path("'file:///w.png'\n"),
        Some("/w.png".to_string())
    );
    assert_eq!(cli_wallpaper_path("''\n"), None);
    assert_eq!(
        get_wallpaper_path(Some("/a".to_string()), &Some("'/b'".to_string())),
        Some("/a".to_string())
    );
    assert_eq!(
        get_wallpaper_path(None, &Some("'/b'".to_string())),
        Some("/b".to_string())
    );
    assert_eq!(get_wallpaper_path(None, &None), None);
}

// The boundary -------------------------------------------------------------

#[test]
fn null_pointer_is_an_invalid_argument() {
    match owned_string_from(None, "path") {
        Err(Failure::InvalidArgument(message)) => {
            assert!(message.contains("path"), "message was: {message}");
            assert_eq!(message, "`path` must not be null");
        }
        other => panic!("expected InvalidArgument, got {other:?}"),
    }
}

#[test]
fn valid_c_string_round_trips() {
    let bytes = b"/home/user/wall.jpg".to_vec();
    let owned = owned_string_from(Some(bytes), "path").expect("valid UTF-8 C string");
    assert_eq!(owned, "/home/user/wall.jpg");
}

#[test]
fn invalid_utf8_is_rejected_without_reading_past_the_terminator() {
    // 0xFF is never valid UTF-8.
    let result = owned_string_from(Some(vec![0xFF]), "path");
    assert!(matches!(result, Err(Failure::InvalidArgument(_))));
    for bad in [
        vec![0xC0, 0x80],
        vec![0xED, 0xA0, 0x80],
        vec![0xF4, 0x90, 0x80, 0x80],
        vec![0xE2, 0x82],
    ] {
        assert!(owned_string_from(Some(bad), "path").is_err());
    }
}

#[test]
fn c_string_round_trip_through_free() {
    for text in ["/tmp/wallpaper.png", "", "托盘 \u{1F600}"] {
        let mut bytes = c_string_from(text).expect("no interior NUL");
        assert_eq!(bytes.pop(), Some(0));
        let back = owned_string_from(Some(bytes), "path").expect("round trip");
        assert_eq!(back, text);
    }
}

#[test]
fn interior_null_byte_yields_a_null_pointer_not_a_short_string() {
    assert!(c_string_from("bad\0path").is_none());
}

#[test]
fn success_path_returns_ok_and_leaves_no_message() {
    let mut slot = LastMessage::new();
    let status = catch_boundary(&mut slot, Outcome::Done);
    assert_eq!(status, UDA_OK);
    assert_eq!(slot.take_last_message(), None);
}

#[test]
fn last_error_message_is_null_when_nothing_failed() {
    let mut slot = LastMessage::new();
    slot.set_last_message("x");
    assert_eq!(slot.take_last_message(), Some("x".to_string()));
    assert_eq!(slot.take_last_message(), None);
}

#[test]
fn typed_failure_records_its_message_and_status() {
    let mut slot = LastMessage::new();
    let status = catch_boundary(
        &mut slot,
        Outcome::Failed(Failure::Uda(UdaError::NotSupported(
            "no screensaver service".to_string(),
        ))),
    );
    assert_eq!(status, UDA_ERR_NOT_SUPPORTED);
    let message = slot.take_last_message().expect("message was recorded");
    assert!(message.contains("no screensaver service"), "got: {message}");
}

#[test]
fn invalid_argument_is_reported_as_such() {
    let mut slot = LastMessage::new();
    let status = catch_boundary(
        &mut slot,
        Outcome::Failed(Failure::InvalidArgument(
            "`out_path` must not be null".to_string(),
        )),
    );
    assert_eq!(status, UDA_ERR_INVALID_ARGUMENT);
}

#[test]
fn panic_is_contained_and_reported_as_panic_status() {
    let mut slot = LastMessage::new();
    let status = catch_boundary(
        &mut slot,
        Outcome::Panicked(Some("boom from a test".to_string())),
    );
    assert_eq!(status, UDA_ERR_PANIC);
    let message = slot.take_last_message().expect("panic message recorded");
    assert!(
        message.contains("boom"),
        "the panic message must survive the boundary, got: {message}"
    );
    assert_eq!(
        message,
        "panic contained at the FFI boundary: boom from a test"
    );
}

#[test]
fn formatted_panic_messages_also_survive() {
    let mut slot = LastMessage::new();
    let status = catch_boundary(&mut slot, Outcome::Panicked(Some(format!("boom {}", 42))));
    assert_eq!(status, UDA_ERR_PANIC);
    let message = slot.take_last_message().expect("panic message recorded");
    assert!(message.contains("boom 42"), "got: {message}");
}

#[test]
fn an_owned_string_payload_is_unwrapped() {
    let mut slot = LastMessage::new();
    let status = catch_boundary(&mut slot, Outcome::Panicked(Some(String::from("owned boom"))));
    assert_eq!(status, UDA_ERR_PANIC);
    let message = slot.take_last_message().expect("panic message recorded");
    assert!(message.contains("owned boom"), "got: {message}");
}

#[test]
fn panic_payloads_without_a_string_are_still_described() {
    let mut slot = LastMessage::new();
    let status = catch_boundary(&mut slot, Outcome::Panicked(None));
    assert_eq!(status, UDA_ERR_PANIC);
    let message = slot.take_last_message().expect("message recorded");
    assert!(!message.is_empty());
    assert_eq!(
        panic_description(&None),
        "panic payload carries no readable message"
    );
}

// Wake locks ---------------------------------------------------------------

type Locks = LockRegistry<u32, &'static str>;

fn native(release: u32) -> LockEntry<u32, &'static str> {
    LockEntry::Native(WakeLockGuard::new(release))
}

fn register(locks: &mut Locks, entry: LockEntry<u32, &'static str>) -> WakeLockHandle {
    match locks.register(entry) {
        Ok(handle) => handle,
        Err(left) => panic!("{}", left.failure.message()),
    }
}

#[test]
fn handles_are_unique_and_non_zero() {
    let mut locks = Locks::new();
    let first = register(&mut locks, native(1)).raw();
    let second = register(&mut locks, native(2)).raw();
    assert_ne!(first, second);
    assert_ne!(first, 0);
    assert_ne!(second, 0);
}

#[test]
fn releasing_an_unknown_handle_fails_without_touching_the_table() {
    let mut locks = Locks::new();
    register(&mut locks, native(1));
    let before = locks.live_count();
    // A handle that was never handed out.
    let bogus = WakeLockHandle::from_raw(u64::MAX - 1).expect("non-zero");
    let result = locks.release(bogus);
    assert!(result.is_err());
    assert_eq!(locks.live_count(), before);
}

#[test]
fn releasing_an_unknown_handle_is_an_error_not_a_panic() {
    let mut locks = Locks::new();
    let bogus = WakeLockHandle::from_raw(0xDEAD_BEEF).expect("synthetic handle");
    match locks.release(bogus) {
        Err(failure) => assert_eq!(
            failure.message(),
            "wake-lock handle 3735928559 is not a live lock in this process"
        ),
        Ok(_) => panic!("an unknown handle must be rejected"),
    }
}

#[test]
fn acquire_and_release_round_trip_through_the_registry() {
    let mut locks = Locks::new();
    let before = locks.live_count();
    let handle = register(&mut locks, native(9));
    assert_eq!(locks.live_count(), before + 1);

    match locks.release(handle) {
        Ok(LockEntry::Native(mut guard)) => assert_eq!(guard.release(), Some(9)),
        _ => panic!("releasing a live lock hands its entry back"),
    }
    assert_eq!(locks.live_count(), before, "the entry must be removed on release");
}

#[test]
fn double_release_is_reported_not_silently_ignored() {
    let mut locks = Locks::new();
    let handle = register(&mut locks, native(1));
    assert!(locks.release(handle).is_ok(), "first release succeeds");
    assert!(
        locks.release(handle).is_err(),
        "the handle is gone after the first release"
    );
}

#[test]
fn many_locks_can_be_held_and_released_independently() {
    let mut locks = Locks::new();
    let before = locks.live_count();
    let mut handles = Vec::new();
    for index in 0..4 {
        handles.push(register(&mut locks, native(index)));
    }
    assert_eq!(locks.live_count(), before + 4, "all four locks are live");

    for handle in handles {
        assert!(locks.release(handle).is_ok(), "each lock releases");
    }
    assert_eq!(locks.live_count(), before, "every lock was removed");
}

#[test]
fn cli_lock_arguments_cover_the_requested_flags() {
    // The `--what` flag must widen for system-idle locks; this is the only
    // difference the CLI tier can express.
    let display = inhibit_what(WakeLockType::PreventDisplaySleep);
    let system = inhibit_what(WakeLockType::PreventSystemIdle);
    assert_eq!(display, "idle");
    assert_eq!(system, "idle:sleep");
    let args = cli_lock_args(WakeLockType::PreventSystemIdle, "backup");
    assert!(args.iter().any(|arg| arg.contains("idle:sleep")));
    assert!(args.iter().any(|arg| arg.contains("backup")));
    assert!(args.iter().any(|arg| arg.contains("3600")));
}

#[test]
fn a_failed_service_leads_to_the_helper() {
    let granted: Result<WakeLockGuard<u32>, UdaError> = Ok(WakeLockGuard::new(1));
    let refused: Result<WakeLockGuard<u32>, UdaError> = Err(UdaError::Internal("x".into()));
    assert_eq!(tier_after(&granted), LockTier::Native);
    assert_eq!(tier_after(&refused), LockTier::Cli);
    assert_eq!(cli_failure("gone").status(), UDA_ERR_NOT_SUPPORTED);

    let helper: LockEntry<u32, &str> = LockEntry::Cli {
        child: "child",
        expires_at: CLI_LOCK_SECONDS,
    };
    assert_eq!(helper.release_plan(true), Release::KillAndWait);
    assert_eq!(helper.release_plan(false), Release::Wait);
    assert_eq!(native(1).release_plan(true), Release::RunGuard);
}

// Tray handles -------------------------------------------------------------

#[test]
fn menu_handles_are_unique_and_non_zero() {
    let mut registry = TrayRegistry::new();
    let first = registry.create_menu();
    let second = registry.create_menu();
    let third = registry.create_menu();

    assert_ne!(first, 0, "0 is the C ABI's invalid handle");
    assert_ne!(second, 0);
    assert_ne!(third, 0);
    assert_ne!(first, second);
    assert_ne!(first, third);
    assert_ne!(second, third);

    assert!(registry.destroy_menu(first).is_ok());
    assert!(registry.destroy_menu(second).is_ok());
    assert!(registry.destroy_menu(third).is_ok());
}

#[test]
fn destroying_an_unknown_icon_handle_is_an_error() {
    let mut registry = TrayRegistry::new();
    let (icons, _menus) = registry.live_counts();
    let result = registry.destroy_icon(u64::MAX - 1);
    assert!(result.is_err(), "an unknown handle must be rejected");
    let (after, _) = registry.live_counts();
    assert_eq!(icons, after, "a failed destroy must not drop a record");
}

#[test]
fn a_menu_handle_is_not_accepted_where_an_icon_is_expected() {
    let mut registry = TrayRegistry::new();
    let menu = registry.create_menu();

    // Addressing a menu with an icon call must fail *and* leave the menu
    // alive, so a host that mixed up its handles can still clean up.
    assert!(registry.set_tooltip(menu, "oops").is_err());
    assert!(registry.set_visible(menu, false).is_err());
    assert!(registry.destroy_icon(menu).is_err());

    let (_, menus) = registry.live_counts();
    assert!(menus >= 1, "the mis-addressed menu must survive");
    assert!(registry.destroy_menu(menu).is_ok());
}

#[test]
fn set_menu_reports_a_handle_mix_up_without_losing_either_record() {
    let mut registry = TrayRegistry::new();
    let menu = registry.create_menu();
    // A menu as both arguments is a mix-up: the first must be an icon. The
    // failed lookup must not silently drop the menu.
    assert!(registry.set_menu(menu, menu).is_err());
    let (icons, menus) = registry.live_counts();
    assert_eq!(icons, 0, "no icon could have been created here");
    assert!(menus >= 1);
    assert!(registry.destroy_menu(menu).is_ok());
}

#[test]
fn a_menu_handle_cannot_be_destroyed_twice() {
    let mut registry = TrayRegistry::new();
    let menu = registry.create_menu();
    assert!(registry.destroy_menu(menu).is_ok());
    assert!(
        registry.destroy_menu(menu).is_err(),
        "a destroyed menu handle must be single-use"
    );
}

#[test]
fn menu_rows_are_mapped_to_stable_non_zero_ids_in_order() {
    let mut registry = TrayRegistry::new();
    let menu = registry.create_menu();

    let welcome_id = registry.menu_add_text(menu, "welcome", None).expect("text row");
    let on_toggle = registry.add_action(1);
    let checkbox_id = registry
        .menu_add_checkbox(menu, "dark mode", false, on_toggle)
        .expect("checkbox row");
    assert!(registry.menu_add_separator(menu).is_ok(), "separator");
    let quit_id = registry.menu_add_text(menu, "quit", None).expect("text row");

    assert_ne!(welcome_id, 0);
    assert_ne!(checkbox_id, 0);
    assert_ne!(quit_id, 0);
    assert_ne!(welcome_id, checkbox_id);
    assert_ne!(welcome_id, quit_id);
    assert_ne!(checkbox_id, quit_id);

    let reference = registry.menu(menu).expect("the menu is still live");
    let rows = registry.store().menu(reference).expect("live menu").entries();
    assert_eq!(rows.len(), 4, "three rows and one separator");
    assert_eq!(rows[0].0.into_raw(), welcome_id);
    assert_eq!(rows[0].1.label(), Some("welcome"));
    assert_eq!(rows[1].0.into_raw(), checkbox_id);
    assert_eq!(rows[1].1.label(), Some("dark mode"));
    assert!(rows[1].1.is_checkbox());
    assert!(!rows[1].1.state().checked, "it starts unchecked");
    assert!(rows[2].1.is_separator());
    assert_eq!(rows[3].0.into_raw(), quit_id);
    assert_eq!(rows[3].1.label(), Some("quit"));

    assert!(registry.destroy_menu(menu).is_ok());
}

#[test]
fn a_text_row_callback_fires_with_the_row_id_and_user_data() {
    let mut registry = TrayRegistry::new();
    let menu = registry.create_menu();
    let on_ping = registry.add_action(0x5eed);
    let item_id = registry
        .menu_add_text(menu, "ping", Some(on_ping))
        .expect("text row");

    let reference = registry.menu(menu).expect("the menu is still live");
    let rows = registry.store().menu(reference).expect("live menu").entries();
    let call = rows[0]
        .1
        .action()
        .expect("the row carries a callback")
        .invoke(registry.actions(), &TrayEvent::Click);
    assert_eq!(
        call,
        TrayCall {
            callback: 0x5eed,
            event: TrayEvent::Click
        }
    );
    assert_eq!(rows[0].0.into_raw(), item_id);
    assert!(registry.destroy_menu(menu).is_ok());
}

#[test]
fn a_checkbox_callback_reports_the_new_state() {
    let mut registry = TrayRegistry::new();
    let menu = registry.create_menu();
    let on_toggle = registry.add_action(1);
    let item_id = registry
        .menu_add_checkbox(menu, "toggle me", false, on_toggle)
        .expect("checkbox row");
    let reference = registry.menu(menu).expect("the menu is still live");

    for expected in [true, false, true] {
        // The model is inverted before the callback runs, so the value the
        // host sees is the state the shell will render next.
        assert_eq!(registry.checkbox_activated(reference, item_id), expected);
    }

    // The menu's own value stayed in sync.
    let rows = registry.store().menu(reference).expect("live menu").entries();
    assert!(rows[0].1.state().checked, "three toggles from unchecked");

    // The menu outlives its handle for as long as something shows it.
    assert!(registry.destroy_menu(menu).is_ok());
    assert!(!registry.checkbox_activated(reference, item_id));
}

#[test]
fn a_null_callback_yields_a_plain_row_rather_than_an_error() {
    let mut registry = TrayRegistry::new();
    let menu = registry.create_menu();
    let item_id = registry
        .menu_add_text(menu, "no callback", None)
        .expect("a row without a callback is legal");
    assert_ne!(item_id, 0);

    let reference = registry.menu(menu).expect("the menu is still live");
    let rows = registry.store().menu(reference).expect("live menu").entries();
    assert_eq!(rows.len(), 1);
    assert!(
        rows[0].1.action().is_none(),
        "a null callback must not install a trampoline"
    );
    // The row is still enabled, so it is clickable.
    assert!(!rows[0].1.is_disabled());
    assert!(registry.destroy_menu(menu).is_ok());
}

#[test]
fn a_menu_handle_cannot_receive_rows_after_destruction() {
    let mut registry = TrayRegistry::new();
    let menu = registry.create_menu();
    assert!(registry.destroy_menu(menu).is_ok());
    assert!(
        registry.menu_add_separator(menu).is_err(),
        "a destroyed menu must reject further rows"
    );
}

#[test]
fn an_empty_label_is_rejected_before_the_row_exists() {
    let mut registry = TrayRegistry::new();
    let menu = registry.create_menu();
    let result = registry.menu_add_text(menu, "   ", None);
    assert!(result.is_err(), "an invisible row must not be created");
    let reference = registry.menu(menu).expect("the menu is still live");
    let rows = registry.store().menu(reference).expect("live menu").len();
    assert_eq!(rows, 0, "a rejected push leaves the menu untouched");
    assert!(registry.destroy_menu(menu).is_ok());
}

#[test]
fn a_typed_failure_leaves_a_message_for_the_caller() {
    let mut registry = TrayRegistry::new();
    let mut slot = LastMessage::new();
    let outcome = match registry.destroy_menu(0) {
        Ok(()) => Outcome::Done,
        Err(failure) => Outcome::Failed(failure),
    };
    let status = catch_boundary(&mut slot, outcome);
    assert_eq!(status, UDA_ERR_INVALID_ARGUMENT);
    assert!(
        slot.take_last_message().is_some(),
        "a typed failure must leave a message for the caller"
    );
}

#[test]
fn every_rejection_carries_a_readable_diagnosis() {
    let mut registry = TrayRegistry::new();
    let menu = registry.create_menu();

    let rejections = [
        registry.set_tooltip(menu, "x"),
        registry.set_menu(menu, menu),
        registry.destroy_icon(menu).map(|_| ()),
        registry.set_visible(menu, false),
        registry.destroy_menu(u64::MAX),
    ];

    for rejection in rejections {
        let failure = rejection.expect_err("a menu is not a tray icon");
        assert_eq!(failure.status(), UDA_ERR_INVALID_ARGUMENT);
        assert!(
            !failure.message().is_empty(),
            "a rejection must explain itself, not just report a code"
        );
    }

    // None of those rejections may have consumed the menu.
    let (_, menus) = registry.live_counts();
    assert!(menus >= 1, "a mis-addressed menu must survive every rejection");
    assert!(registry.destroy_menu(menu).is_ok());
}

#[test]
fn a_typo_between_handle_kinds_names_the_real_kind() {
    // The message must name which kind the handle actually is, so a host
    // debugging its own bookkeeping can tell "stale handle" from "wrong
    // handle kind" without guessing.
    let mut registry = TrayRegistry::new();
    let menu = registry.create_menu();

    let message = match registry.destroy_icon(menu) {
        Err(failure) => failure.message(),
        Ok(_) => panic!("a menu is not an icon"),
    };
    assert!(
        message.contains("menu"),
        "the diagnosis must name the real kind: {message}"
    );
    assert!(registry.destroy_menu(menu).is_ok());
}

#[test]
fn an_icon_handle_reaches_its_icon() {
    let mut registry = TrayRegistry::new();
    let config = icon_config("player", "tip");
    assert_eq!(config.name, "player");
    assert_eq!(config.tooltip, "tip");
    let handle = registry.register_icon(TrayIcon::from_inner(TrayIconInner::new(config.name)));
    assert_eq!(registry.live_counts(), (1, 0));

    assert!(registry.set_tooltip(handle, "now playing").is_ok());
    assert!(registry.set_visible(handle, false).is_ok());
    assert!(registry.set_icon_path(handle, "a.png").is_ok());
    let menu = registry.create_menu();
    assert!(registry.set_menu(handle, menu).is_ok());
    let state = &registry.icon(handle).expect("live icon").inner().state;
    assert_eq!(state.tooltip, "now playing");
    assert!(!state.visible);
    assert_eq!(state.icon, Some(TrayIconSource::Path("a.png".to_string())));
    assert!(state.menu.is_some());

    let pixels = vec![1, 2, 3, 4];
    assert!(registry.set_icon_rgba(handle, 1, 1, 4, Some(&pixels)).is_ok());
    assert!(registry.set_icon_rgba(handle, 1, 1, 4, None).is_err());
    assert!(registry.set_icon_rgba(handle, 2, 1, 8, Some(&pixels)).is_err());
    assert!(registry.set_icon_path(handle, "").is_err());

    assert!(registry.destroy_icon(handle).is_ok());
    assert!(registry.set_tooltip(handle, "x").is_err());
    assert_eq!(registry.live_counts(), (0, 1));
}

#[test]
fn a_bounded_lock_leaves_a_notice() {
    let mut slot = LastMessage::new();
    report_granted(&mut slot, LockTier::Native);
    assert_eq!(slot.take_last_message(), None);
    report_granted(&mut slot, LockTier::Cli);
    assert_eq!(
        slot.take_last_message(),
        Some("the wake lock is held by systemd-inhibit and ends after 3600 seconds".to_string())
    );
    // A native lock leaves an earlier message alone.
    slot.set_last_message("earlier");
    report_granted(&mut slot, LockTier::Native);
    assert_eq!(slot.take_last_message(), Some("earlier".to_string()));
}

#[test]
fn no_wallpaper_and_no_answer_are_told_apart() {
    let refused: Result<Option<String>, UdaError> =
        Err(UdaError::NotSupported("not readable".to_string()));
    let mut slot = LastMessage::new();
    slot.set_last_message("earlier");
    // Nothing can answer: the reason is left.
    report_wallpaper(&mut slot, &refused, &None);
    assert_eq!(
        slot.take_last_message(),
        Some("Feature not supported: not readable".to_string())
    );
    // Either of them answers that none is configured: nothing is left.
    slot.set_last_message("earlier");
    report_wallpaper(&mut slot, &Ok(None), &None);
    assert_eq!(slot.take_last_message(), None);
    slot.set_last_message("earlier");
    report_wallpaper(&mut slot, &refused, &Some("''".to_string()));
    assert_eq!(slot.take_last_message(), None);
    // A path leaves the slot alone.
    slot.set_last_message("earlier");
    report_wallpaper(&mut slot, &Ok(Some("/a".to_string())), &None);
    report_wallpaper(&mut slot, &refused, &Some("'/b'".to_string()));
    assert_eq!(slot.take_last_message(), Some("earlier".to_string()));
}
