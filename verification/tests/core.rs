use uda::capability::{Capability, SupportLevel};
use uda::error::UdaError;
use uda::notification::{Notification, Urgency};
use uda::text;
use uda::wakelock::{WakeLockGuard, WakeLockType};
use uda::wallpaper::{FillMode, WallpaperOptions};

#[test]
fn urgency_default_is_normal() {
    assert_eq!(Urgency::default(), Urgency::Normal);
}

#[test]
fn urgency_values_match_spec() {
    assert_eq!(Urgency::Low.value(), 0);
    assert_eq!(Urgency::Normal.value(), 1);
    assert_eq!(Urgency::Critical.value(), 2);
}

#[test]
fn notification_default_has_normal_urgency() {
    let n = Notification::default();
    assert_eq!(n.urgency, Urgency::Normal);
}

#[test]
fn notification_notification_default_has_zero_replaces_id() {
    let n = Notification::default();
    assert_eq!(n.replaces_id, 0);
}

#[test]
fn errors_say_what_went_wrong() {
    let reason = || "x".to_string();
    assert_eq!(
        UdaError::NotSupported(reason()).message(),
        "Feature not supported: x"
    );
    assert_eq!(
        UdaError::DetectionFailed(reason()).message(),
        "Detection failed: x"
    );
    assert_eq!(UdaError::CommandFailed(reason()).message(), "Command failed: x");
    assert_eq!(UdaError::Io(reason()).message(), "IO error: x");
    assert_eq!(UdaError::Internal(reason()).message(), "Internal error: x");
}

#[test]
fn capability_sets_grow_by_union() {
    let empty = Capability::empty();
    assert_eq!(empty.bits(), 0);
    assert!(!empty.contains(Capability::WAKE_LOCK));
    assert!(empty.contains(0));
    let set = empty
        .with(Capability::WAKE_LOCK)
        .with(Capability::SEND_NOTIFICATION);
    assert!(set.contains(Capability::WAKE_LOCK));
    assert!(set.contains(Capability::WAKE_LOCK | Capability::SEND_NOTIFICATION));
    assert!(!set.contains(Capability::WAKE_LOCK | Capability::DETECT_THEME));
    assert_eq!(set, Capability::of(0x0060));
    assert_ne!(SupportLevel::Partial, SupportLevel::Full);
}

#[test]
fn wallpaper_options_default_to_filling_every_monitor() {
    let options = WallpaperOptions::default();
    assert_eq!(options.fill_mode, FillMode::Fill);
    assert_eq!(options.monitor_index, None);
    assert!(!options.dark_mode);
}

#[test]
fn a_wake_lock_is_released_once() {
    let mut guard = WakeLockGuard::new(41u32);
    assert_eq!(guard.release(), Some(41));
    assert_eq!(guard.release(), None);
}

#[test]
fn screen_saver_flags_are_suspend_and_idle() {
    assert_eq!(WakeLockType::PreventSystemIdle.to_screen_saver_flags(), 4 | 8);
    assert_eq!(WakeLockType::PreventDisplaySleep.to_screen_saver_flags(), 8);
}

#[test]
fn white_space_is_what_unicode_says() {
    for c in '\0'..=char::MAX {
        assert_eq!(text::is_white_space(c), c.is_whitespace(), "{c:?}");
    }
}

#[test]
fn texts_are_cut_at_their_white_space() {
    assert_eq!(text::trim(" \u{3000}a b\n"), "a b");
    assert_eq!(text::trim("\t"), "");
    assert!(text::blank(" \u{2003}"));
    assert!(!text::blank(" . "));
}

#[test]
fn numbers_are_shown_in_decimal_and_hexadecimal() {
    assert_eq!(text::show_signed(i32::MIN), "-2147483648");
    assert_eq!(text::show_signed(0), "0");
    assert_eq!(text::show_hex(0xDEAD), format!("{:x}", 0xDEAD));
    assert_eq!(text::show_hex(0), "0");
}

#[test]
fn bytes_are_read_like_the_standard_library_does() {
    for text in [
        "0", "00", "+7", "255", "256", "0255", "-0", "-1", "", "+", "++1", "1 ", "a", "1a",
        "99999999999999999999",
    ] {
        assert_eq!(text::parse_byte(text), text.parse::<u8>().ok(), "{text:?}");
    }
}

#[test]
fn parts_are_those_of_a_split() {
    for text in ["", ",", "a", "a,b", ",a,,b,"] {
        let parts: Vec<&str> = text.split(',').collect();
        for k in 0..parts.len() + 2 {
            assert_eq!(text::part(text, ',', k), parts.get(k).copied());
        }
    }
}

#[test]
fn substrings_are_found_and_stripped() {
    assert!(text::contains("abcabd", "abd"));
    assert!(text::contains("abc", ""));
    assert!(!text::contains("abc", "cb"));
    assert!(text::starts_with("file://x", "file://"));
    assert!(text::ends_with("theme-dark", "-dark"));
    assert_eq!(text::strip_prefix("rgba(1", "rgba("), Some("1"));
    assert_eq!(text::strip_prefix("rgb(1", "rgba("), None);
    assert_eq!(text::strip_suffix("1)", ")"), Some("1"));
    assert_eq!(text::strip_suffix("1", ")"), None);
    assert!(text::same_ignoring_ascii_case("Prefer-DARK", "prefer-dark"));
    assert!(!text::same_ignoring_ascii_case("\u{c9}", "\u{e9}"));
    assert_eq!(text::trim_either("''a'b''", '\'', '\''), "a'b");
}
