use uda::capability::{Capability, RgbaColor, Theme};
use uda::error::UdaError;
use uda::notification::{Notification, Urgency};
use uda::platform_linux::appearance::{
    command_answer, parse_rgba_string, LinuxAppearanceManager, ProbeAnswer, ThemeProbe, ThemeStep,
};
use uda::platform_linux::bus::{bus_error, runtime_error, Service, Stage};
use uda::platform_linux::detection::{detect_environment, DesktopEnvironment, EnvironmentInfo};
use uda::platform_linux::notification::{
    flatten_actions, notification_capabilities, notify_request, urgency_hint,
};
use uda::platform_linux::wakelock::{granted, inhibit_request};
use uda::platform_linux::wallpaper::{
    command_start_error, command_status_error, first_stage, next_stage, probe_outcome, stage_work,
    LinuxWallpaperManager, StageWork, WallpaperProgress, WallpaperStage,
};
use uda::wakelock::{WakeLockGuard, WakeLockType};
use uda::wallpaper::{FillMode, WallpaperOptions};

fn some(text: &str) -> Option<String> {
    Some(text.to_string())
}

fn strings(words: &[&str]) -> Vec<String> {
    words.iter().map(|word| word.to_string()).collect()
}

// Session ------------------------------------------------------------------

#[test]
fn env_gnome() {
    let info = detect_environment(some("GNOME"), some("wayland"), some("gnome"), None, None);
    assert_eq!(info.desktop_environment, DesktopEnvironment::Gnome);
    assert_eq!(info.xdg_current_desktop.as_deref(), Some("GNOME"));
    assert_eq!(info.xdg_session_type.as_deref(), Some("wayland"));
    assert_eq!(info.desktop_session.as_deref(), Some("gnome"));
}

#[test]
fn env_kde() {
    let info = detect_environment(some("KDE"), None, some("plasma"), None, None);
    assert_eq!(info.desktop_environment, DesktopEnvironment::Kde);
    assert_eq!(info.xdg_current_desktop.as_deref(), Some("KDE"));
    assert_eq!(info.desktop_session.as_deref(), Some("plasma"));
    assert!(info.xdg_session_type.is_none());
}

#[test]
fn env_xorg() {
    let info = detect_environment(None, None, some("gnome-xorg"), None, some(":0"));
    assert_eq!(info.desktop_environment, DesktopEnvironment::Gnome);
    assert_eq!(info.desktop_session.as_deref(), Some("gnome-xorg"));
    assert_eq!(info.display.as_deref(), Some(":0"));
}

#[test]
fn env_wayland() {
    let info = detect_environment(None, some("wayland"), None, some("wayland-0"), None);
    assert_eq!(info.xdg_session_type.as_deref(), Some("wayland"));
    assert_eq!(info.wayland_display.as_deref(), Some("wayland-0"));
}

#[test]
fn env_unknown() {
    let info = detect_environment(None, None, None, None, None);
    assert_eq!(info.desktop_environment, DesktopEnvironment::Unknown);
    assert!(info.xdg_current_desktop.is_none());
    assert!(info.xdg_session_type.is_none());
    assert!(info.desktop_session.is_none());
    assert!(info.wayland_display.is_none());
    assert!(info.display.is_none());
    assert_eq!(info, EnvironmentInfo::default());
}

#[test]
fn desktops_are_named_by_either_variable() {
    assert_eq!(
        DesktopEnvironment::infer("ubuntu:GNOME", ""),
        DesktopEnvironment::Gnome
    );
    assert_eq!(
        DesktopEnvironment::infer("", "plasmawayland"),
        DesktopEnvironment::Kde
    );
    assert_eq!(
        DesktopEnvironment::infer("sway", "sway"),
        DesktopEnvironment::Unknown
    );
}

// Notifications ------------------------------------------------------------

#[test]
fn actions_flattening() {
    let actions = vec![
        ("action1".to_string(), "OK".to_string()),
        ("action2".to_string(), "Cancel".to_string()),
    ];
    let flat = flatten_actions(&actions);
    assert_eq!(flat, vec!["action1", "OK", "action2", "Cancel"]);
}

#[test]
fn actions_empty() {
    let actions: Vec<(String, String)> = Vec::new();
    assert!(flatten_actions(&actions).is_empty());
}

#[test]
fn notification_default_has_zero_replaces_id() {
    let notification = Notification::default();
    assert_eq!(notification.replaces_id, 0);
}

#[test]
fn notification_default_empty_body() {
    let notification = Notification::default();
    assert!(notification.body.is_empty());
    assert!(notification.summary.is_empty());
}

#[test]
fn notification_urgency_hint_is_omitted_for_low() {
    let notification = Notification {
        urgency: Urgency::Low,
        ..Notification::default()
    };
    // Low urgency (0) is the server default, so no hint is required.
    assert_eq!(notification.urgency.value(), 0);
    assert_eq!(urgency_hint(notification.urgency), None);
}

#[test]
fn notification_urgency_hint_is_sent_for_normal() {
    let notification = Notification::default();
    assert_eq!(notification.urgency.value(), 1);
    assert_eq!(urgency_hint(notification.urgency), Some(1));
    assert_eq!(urgency_hint(Urgency::Critical), Some(2));
}

#[test]
fn a_request_carries_the_whole_notification() {
    let notification = Notification {
        summary: "s".to_string(),
        body: "b".to_string(),
        replaces_id: 7,
        actions: vec![("k".to_string(), "l".to_string())],
        ..Notification::default()
    };
    let request = notify_request(&notification);
    assert_eq!(request.summary, "s");
    assert_eq!(request.body, "b");
    assert_eq!(request.replaces_id, 7);
    assert_eq!(request.actions, vec!["k", "l"]);
    assert_eq!(request.urgency, Some(1));
    assert!(notification_capabilities().contains(Capability::SEND_NOTIFICATION));
}

// Wake locks ---------------------------------------------------------------

/// Runs the action that a guard still owes when it goes away.
struct Held<'a> {
    guard: WakeLockGuard<&'a dyn Fn()>,
}

impl Drop for Held<'_> {
    fn drop(&mut self) {
        if let Some(action) = self.guard.release() {
            action();
        }
    }
}

#[test]
fn guard_runs_release_on_drop() {
    let released = std::cell::Cell::new(false);
    let release = || released.set(true);
    let held = Held {
        guard: WakeLockGuard::new(&release),
    };
    assert!(!released.get());
    drop(held);
    assert!(released.get());
}

#[test]
fn guard_manual_release() {
    let released = std::cell::Cell::new(0);
    let release = || released.set(released.get() + 1);
    let mut held = Held {
        guard: WakeLockGuard::new(&release),
    };
    if let Some(action) = held.guard.release() {
        action();
    }
    assert_eq!(released.get(), 1);
    drop(held);
    assert_eq!(released.get(), 1);
}

#[test]
fn wake_lock_type_flags() {
    assert_eq!(WakeLockType::PreventDisplaySleep.to_screen_saver_flags(), 8);
    assert_eq!(WakeLockType::PreventSystemIdle.to_screen_saver_flags(), 12);
}

#[test]
fn an_inhibition_is_undone_with_its_cookie() {
    let request = inhibit_request("UDA", WakeLockType::PreventSystemIdle, "backup");
    assert_eq!(request.app_name, "UDA");
    assert_eq!(request.reason, "backup");
    assert_eq!(request.flags, 12);
    assert_eq!(granted(99).release(), Some(99));
}

// Wallpaper ----------------------------------------------------------------

#[test]
fn file_uri_with_spaces() {
    assert_eq!(
        LinuxWallpaperManager::file_uri("/path/with spaces/image.jpg"),
        "file:///path/with%20spaces/image.jpg"
    );
}

#[test]
fn file_uri_encodes_special_characters() {
    assert_eq!(
        LinuxWallpaperManager::file_uri("/path/a%b#c?d.jpg"),
        "file:///path/a%25b%23c%3Fd.jpg"
    );
}

#[test]
fn file_uri_preserves_existing_uri() {
    assert_eq!(
        LinuxWallpaperManager::file_uri("file:///path/中文图片.jpg"),
        "file:///path/中文图片.jpg"
    );
}

#[test]
fn different_paths_have_different_uris() {
    let paths = ["/a b", "/a%20b", "/a%2520b", "/a+b", "/\u{e9}", "/e\u{301}"];
    for (index, path) in paths.iter().enumerate() {
        let uri = LinuxWallpaperManager::file_uri(path);
        assert!(uri.is_ascii() || !path.is_ascii(), "{uri}");
        for other in &paths[index + 1..] {
            assert_ne!(uri, LinuxWallpaperManager::file_uri(other));
        }
    }
}

fn options(fill_mode: FillMode) -> WallpaperOptions {
    WallpaperOptions {
        fill_mode,
        monitor_index: None,
        dark_mode: false,
    }
}

#[test]
fn kde_script_fill_mode_mapping() {
    let script = LinuxWallpaperManager::kde_script("/tmp/wall.jpg", &options(FillMode::Crop));
    assert!(script.contains(r#"writeConfig("Image", "file:///tmp/wall.jpg")"#));
    assert!(script.contains("writeConfig(\"FillMode\", 2)"));
}

#[test]
fn kde_script_fit_maps_to_wallpaper_fill_mode() {
    let script = LinuxWallpaperManager::kde_script("/tmp/wall.jpg", &options(FillMode::Fit));
    assert!(script.contains("writeConfig(\"FillMode\", 1)"));
}

#[test]
fn hyprland_command_with_monitor() {
    assert_eq!(
        LinuxWallpaperManager::hyprpaper_args("/tmp/wall.jpg", Some(1)),
        strings(&["wallpaper", "HDMI-1", "/tmp/wall.jpg"])
    );
    assert_eq!(
        LinuxWallpaperManager::hyprpaper_args("/tmp/wall.jpg", None),
        strings(&["wallpaper", ",", "/tmp/wall.jpg"])
    );
}

#[test]
fn swww_args_include_output_when_monitor_set() {
    assert_eq!(
        LinuxWallpaperManager::swww_img_args("/tmp/wall.jpg", Some(2)),
        strings(&["img", "/tmp/wall.jpg", "-o", "output:HDMI-2"])
    );
}

#[test]
fn x11_fallback_chain_priority() {
    // feh is preferred over nitrogen; verify the exact argument vectors.
    assert_eq!(
        LinuxWallpaperManager::feh_args("/tmp/wall.jpg", FillMode::Fill, None),
        strings(&["--bg-fill", "/tmp/wall.jpg"])
    );
    assert_eq!(
        LinuxWallpaperManager::nitrogen_args("/tmp/wall.jpg", Some(2)),
        strings(&["--set-zoom-fill", "--head", "2", "/tmp/wall.jpg"])
    );
}

#[test]
fn nitrogen_defaults_to_head_zero() {
    assert_eq!(
        LinuxWallpaperManager::nitrogen_args("/tmp/wall.jpg", None),
        strings(&["--set-zoom-fill", "--head", "0", "/tmp/wall.jpg"])
    );
}

/// The stages visited when the stages in `failing` fail with `error`.
fn visit(
    desktop: DesktopEnvironment,
    failing: &[WallpaperStage],
    error: fn() -> UdaError,
) -> (Vec<WallpaperStage>, Result<(), UdaError>) {
    let mut stage = first_stage(desktop);
    let mut visited = Vec::new();
    loop {
        visited.push(stage);
        let outcome = if failing.contains(&stage) { Err(error()) } else { Ok(()) };
        match next_stage(stage, outcome) {
            WallpaperProgress::Continue(next) => stage = next,
            WallpaperProgress::Finished(result) => return (visited, result),
        }
    }
}

fn unavailable() -> UdaError {
    UdaError::DetectionFailed("not there".to_string())
}

fn broken() -> UdaError {
    UdaError::Internal("broken".to_string())
}

#[test]
fn gnome_writes_both_keys_and_falls_back_when_undetected() {
    let (visited, result) = visit(DesktopEnvironment::Gnome, &[], unavailable);
    assert_eq!(
        visited,
        vec![WallpaperStage::GnomePrimary, WallpaperStage::GnomeSecondary]
    );
    assert!(result.is_ok());
    let (visited, result) = visit(
        DesktopEnvironment::Gnome,
        &[
            WallpaperStage::GnomePrimary,
            WallpaperStage::HyprpaperProbe,
            WallpaperStage::SwwwProbe,
            WallpaperStage::FehProbe,
        ],
        unavailable,
    );
    assert_eq!(
        visited,
        vec![
            WallpaperStage::GnomePrimary,
            WallpaperStage::HyprpaperProbe,
            WallpaperStage::SwwwProbe,
            WallpaperStage::FehProbe,
            WallpaperStage::NitrogenProbe,
            WallpaperStage::Nitrogen,
        ]
    );
    assert!(result.is_ok());
}

#[test]
fn a_native_error_that_is_no_detection_failure_ends_the_chain() {
    let (visited, result) = visit(DesktopEnvironment::Kde, &[WallpaperStage::Kde], broken);
    assert_eq!(visited, vec![WallpaperStage::Kde]);
    assert!(matches!(result, Err(UdaError::Internal(text)) if text == "broken"));
}

#[test]
fn without_any_tool_the_feature_is_not_supported() {
    let (_, result) = visit(
        DesktopEnvironment::Unknown,
        &[
            WallpaperStage::HyprpaperProbe,
            WallpaperStage::SwwwProbe,
            WallpaperStage::FehProbe,
            WallpaperStage::NitrogenProbe,
        ],
        unavailable,
    );
    match result {
        Err(UdaError::NotSupported(text)) => {
            assert_eq!(text, "Neither feh nor nitrogen is available")
        }
        other => panic!("unexpected result {other:?}"),
    }
}

#[test]
fn swww_is_prepared_before_it_shows_the_image() {
    let (visited, _) = visit(
        DesktopEnvironment::Unknown,
        &[WallpaperStage::HyprpaperProbe],
        unavailable,
    );
    assert_eq!(
        visited,
        vec![
            WallpaperStage::HyprpaperProbe,
            WallpaperStage::SwwwProbe,
            WallpaperStage::SwwwInit,
            WallpaperStage::SwwwImg,
        ]
    );
}

#[test]
fn each_stage_knows_its_work() {
    let mut dark = options(FillMode::Stretch);
    dark.dark_mode = true;
    let key = |stage: WallpaperStage| match stage_work(stage, "/w.png", &dark) {
        StageWork::Run(program, args) => (program, args),
        other => panic!("unexpected work {other:?}"),
    };
    assert_eq!(
        key(WallpaperStage::GnomePrimary),
        (
            "gsettings".to_string(),
            strings(&[
                "set",
                "org.gnome.desktop.background",
                "picture-uri-dark",
                "file:///w.png"
            ])
        )
    );
    assert_eq!(key(WallpaperStage::GnomeSecondary).1[2], "picture-uri");
    assert_eq!(
        stage_work(WallpaperStage::FehProbe, "/w.png", &dark),
        StageWork::Probe("feh".to_string())
    );
    assert_eq!(
        stage_work(WallpaperStage::Kde, "/w.png", &dark),
        StageWork::Evaluate(LinuxWallpaperManager::kde_script("/w.png", &dark))
    );
    assert_eq!(LinuxWallpaperManager::kde_fill_mode(FillMode::Stretch), 3);
}

#[test]
fn failed_commands_are_detection_failures() {
    assert_eq!(
        command_status_error(Some(3)).message(),
        "Detection failed: Command failed with status: 3"
    );
    assert_eq!(
        command_status_error(None).message(),
        "Detection failed: Command failed with status: -1"
    );
    assert_eq!(
        command_start_error("gone").message(),
        "Detection failed: Failed to execute command: gone"
    );
}

#[test]
fn wallpaper_capabilities_depend_on_gsettings() {
    assert_eq!(
        LinuxWallpaperManager::capabilities(true),
        Capability::of(Capability::SET_WALLPAPER | Capability::GET_WALLPAPER)
    );
    assert_eq!(
        LinuxWallpaperManager::capabilities(false),
        Capability::of(Capability::SET_WALLPAPER)
    );
    match LinuxWallpaperManager::get_wallpaper() {
        Err(UdaError::NotSupported(text)) => {
            assert_eq!(text, "get_wallpaper is not supported in this phase")
        }
        other => panic!("unexpected result {other:?}"),
    }
}

// Appearance ---------------------------------------------------------------

#[test]
fn the_portal_is_asked_first_and_light_is_the_default() {
    let mut step = LinuxAppearanceManager::first_step();
    let mut asked = Vec::new();
    while let ThemeStep::Ask(probe) = step {
        asked.push(probe);
        step = LinuxAppearanceManager::next_step(probe, &ProbeAnswer::Silent);
    }
    assert_eq!(
        asked,
        vec![
            ThemeProbe::Portal,
            ThemeProbe::GnomeColorScheme,
            ThemeProbe::GnomeGtkTheme,
            ThemeProbe::Kde,
            ThemeProbe::Xfce
        ]
    );
    assert_eq!(step, ThemeStep::Found(Theme::Light));
}

#[test]
fn each_probe_settles_the_theme_in_its_own_way() {
    let text = |text: &str| ProbeAnswer::Text(text.to_string());
    let next = LinuxAppearanceManager::next_step;
    assert_eq!(
        next(ThemeProbe::Portal, &ProbeAnswer::Number(1)),
        ThemeStep::Found(Theme::Dark)
    );
    assert_eq!(
        next(ThemeProbe::Portal, &ProbeAnswer::Number(2)),
        ThemeStep::Found(Theme::Light)
    );
    assert_eq!(
        next(ThemeProbe::Portal, &ProbeAnswer::Number(0)),
        ThemeStep::Ask(ThemeProbe::GnomeColorScheme)
    );
    assert_eq!(
        next(ThemeProbe::GnomeColorScheme, &text("'Prefer-Dark'")),
        ThemeStep::Found(Theme::Dark)
    );
    assert_eq!(
        next(ThemeProbe::GnomeColorScheme, &text("'default'")),
        ThemeStep::Ask(ThemeProbe::GnomeGtkTheme)
    );
    assert_eq!(
        next(ThemeProbe::Kde, &text("BreezeDARK")),
        ThemeStep::Found(Theme::Dark)
    );
    assert_eq!(
        next(ThemeProbe::Kde, &text("  ")),
        ThemeStep::Ask(ThemeProbe::Xfce)
    );
    assert_eq!(
        next(ThemeProbe::Xfce, &text("5")),
        ThemeStep::Found(Theme::Light)
    );
}

#[test]
fn theme_names_are_compared_in_lower_case() {
    let theme = LinuxAppearanceManager::parse_theme_from_gtk_theme;
    assert_eq!(theme("'Adwaita-DARK'\n"), Theme::Dark);
    assert_eq!(theme("'Adwaita'"), Theme::Light);
    // Lower case is that of Unicode: the Kelvin sign becomes a `k`.
    assert_eq!(theme("Adwaita-DAR\u{212a}"), Theme::Dark);
    let scheme = LinuxAppearanceManager::parse_theme_from_gsettings;
    assert_eq!(scheme("'2'"), Some(Theme::Light));
    assert_eq!(scheme("1"), Some(Theme::Dark));
    assert_eq!(scheme("prefer-light"), Some(Theme::Light));
    assert_eq!(scheme(""), None);
}

#[test]
fn accent_colors_are_read_in_any_case() {
    let color = match parse_rgba_string(" RGBA(1, 20 ,255, 0.5) ") {
        Ok(color) => color,
        Err(error) => panic!("{}", error.message()),
    };
    assert_eq!((color.r, color.g, color.b), (1, 20, 255));
    assert_eq!(color.alpha.as_deref(), Some("0.5"));
    assert_eq!(
        color.with_alpha(128),
        RgbaColor {
            r: 1,
            g: 20,
            b: 255,
            a: 128
        }
    );
    let opaque = parse_rgba_string("rgb(0,0,0)").expect("three channels are enough");
    assert_eq!(opaque.alpha, None);
}

#[test]
fn malformed_accent_colors_name_what_was_read() {
    let refusal = |value: &str| match parse_rgba_string(value) {
        Err(UdaError::NotSupported(text)) => text,
        other => panic!("unexpected result {other:?}"),
    };
    assert_eq!(refusal("Blue"), "Unsupported accent color format: blue");
    assert_eq!(refusal("rgb(1,2,3"), "Unsupported accent color format: 1,2,3");
    assert_eq!(refusal("rgb(1,256,3)"), "Invalid accent color: 1,256,3");
    assert_eq!(refusal("rgb(1,2)"), "Invalid accent color: 1,2");
}

#[test]
fn gnome_accent_colors_lose_their_quotes() {
    let color = LinuxAppearanceManager::detect_gnome_accent_color(&some("'rgb(9,8,7)'"))
        .expect("a quoted colour is read");
    assert_eq!((color.r, color.g, color.b), (9, 8, 7));
    match LinuxAppearanceManager::detect_gnome_accent_color(&None) {
        Err(UdaError::NotSupported(text)) => {
            assert_eq!(text, "Accent color is not supported on this desktop")
        }
        other => panic!("unexpected result {other:?}"),
    }
}

#[test]
fn commands_answer_only_when_they_succeed_and_print() {
    assert_eq!(command_answer(true, " x\n"), some("x"));
    assert_eq!(command_answer(true, " \n"), None);
    assert_eq!(command_answer(false, "x"), None);
    assert_eq!(
        LinuxAppearanceManager::capabilities(false),
        Capability::of(Capability::DETECT_THEME)
    );
    assert!(LinuxAppearanceManager::capabilities(true).contains(Capability::READ_ACCENT_COLOR));
}

// The session bus ----------------------------------------------------------

#[test]
fn bus_failures_name_the_service_and_the_stage() {
    let message = |service, stage| bus_error(service, stage, "down").message();
    assert_eq!(
        message(Service::Desktop, Stage::Connect),
        "Detection failed: zbus session: down"
    );
    assert_eq!(
        message(Service::Desktop, Stage::Address),
        "Detection failed: zbus proxy: down"
    );
    assert_eq!(
        message(Service::Desktop, Stage::Call),
        "Detection failed: zbus call: down"
    );
    assert_eq!(
        message(Service::Notifications, Stage::Address),
        "Internal error: Failed to create notifications proxy: down"
    );
    assert_eq!(
        message(Service::Notifications, Stage::Call),
        "Internal error: Notify call failed: down"
    );
    assert_eq!(
        message(Service::ScreenSaver, Stage::Connect),
        "Internal error: Failed to connect to session bus: down"
    );
    assert_eq!(
        message(Service::ScreenSaver, Stage::Call),
        "Internal error: Inhibit call failed: down"
    );
    assert_eq!(runtime_error("x").message(), "Internal error: tokio runtime: x");
}

#[test]
fn a_missing_program_is_a_failed_detection() {
    assert!(probe_outcome("feh", true).is_ok());
    match probe_outcome("feh", false) {
        Err(error) => assert_eq!(error.message(), "Detection failed: feh is not installed"),
        Ok(()) => panic!("a missing program must be reported"),
    }
}
