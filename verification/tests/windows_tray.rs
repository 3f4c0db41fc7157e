use uda::capability::{Capability, SupportLevel};
use uda::error::UdaError;
use uda::platform_windows::menu_table::{
    MenuTable, PopupRow, FIRST_COMMAND_ID, MF_CHECKED, MF_DISABLED, MF_GRAYED, MF_POPUP,
    MF_SEPARATOR, MF_STRING,
};
use uda::platform_windows::tray::{
    class_is_available, icons_equal, keeps_pumping, menu_point, menus_equal, route_message,
    Callback, Message, Readiness, Refresh, SetupStep, Tick, TrayShared, WindowsTrayManager, Worker,
    CALLBACK_MESSAGE, CLASS_NAME, ERROR_CLASS_ALREADY_EXISTS, NIF_ICON, NIF_MESSAGE, NIF_STATE,
    NIF_TIP, NIS_HIDDEN, POPUP_FLAGS, SYNC_INTERVAL_MS, SYNC_TIMER_ID, WM_COMMAND, WM_CONTEXTMENU,
    WM_LBUTTONDBLCLK, WM_LBUTTONUP, WM_RBUTTONDOWN, WM_RBUTTONUP,
};
use uda::tray::event::{ActionStore, TrayAction, TrayCall, TrayEvent};
use uda::tray::icon::{TrayFeature, TrayIcon, TrayIconConfig, TrayIconInner, TrayIconState, TrayManager};
use uda::tray::item::{MenuItem, MenuRef};
use uda::tray::menu::TrayMenu;
use uda::tray::source::TrayIconSource;
use uda::tray::store::MenuStore;
use uda::tray::tooltip::sanitize_tooltip;
use uda::utf16::{from_wide, to_fixed_utf16, to_wide};

/// Encode and read back a NUL-terminated UTF-16 string.
fn round_trip(text: &str) -> String {
    let wide = to_wide(text);
    from_wide(&wide)
}

#[test]
fn utf16_round_trips_through_a_nul_terminated_buffer() {
    assert_eq!(round_trip("hello"), "hello");
    assert_eq!(round_trip(""), "");
    // Non-ASCII must survive the round trip, not be mangled or dropped.
    assert_eq!(round_trip("托盘"), "托盘");
    assert_eq!(round_trip("café"), "café");
}

#[test]
fn from_utf16_stops_at_the_terminator() {
    // A buffer with data after the NUL must be truncated there, which is
    // what keeps an uninitialised tail out of a decoded string.
    let buffer = vec![b'a' as u16, b'b' as u16, 0, b'x' as u16];
    assert_eq!(from_wide(&buffer), "ab");
}

#[test]
fn a_fixed_tip_field_is_nul_terminated_and_sized() {
    let field = to_fixed_utf16::<128>("hi");
    assert_eq!(field[0], b'h' as u16);
    assert_eq!(field[1], b'i' as u16);
    assert_eq!(field[2], 0, "the field must be NUL-terminated");
    assert_eq!(field.len(), 128, "the field keeps its declared size");
}

#[test]
fn a_long_tooltip_is_truncated_on_a_character_boundary() {
    // 200 ASCII chars into a 128-slot field: 127 units plus the terminator.
    let long: String = "x".repeat(200);
    let field = to_fixed_utf16::<128>(&long);
    assert_eq!(field[127], 0, "the terminator occupies the last slot");
    assert_eq!(field[0], b'x' as u16);

    // A surrogate pair is either fully written or left out entirely: a lone
    // surrogate would decode to a replacement character.
    let stars: String = "★".repeat(300);
    let field = to_fixed_utf16::<128>(&stars);
    assert_eq!(field[127], 0);
    let decoded = from_wide(&field);
    assert!(
        !decoded.contains('\u{FFFD}'),
        "truncation must not split a surrogate pair"
    );
    assert!(decoded.chars().all(|c| c == '★'));
    assert!(decoded.chars().count() < 300);

    let faces = from_wide(&to_fixed_utf16::<128>(&"\u{1F600}".repeat(300)));
    assert_eq!(faces, "\u{1F600}".repeat(63));
}

#[test]
fn sanitizer_caps_the_tooltip_before_the_fixed_copy() {
    // The two-stage truncation must never lose the terminator: sanitize to
    // 127 chars, then encode into 128 units.
    let long: String = "y".repeat(400);
    let capped = sanitize_tooltip(&long);
    assert_eq!(capped.chars().count(), 127);
    let field = to_fixed_utf16::<128>(capped);
    assert_eq!(field[126], b'y' as u16);
    assert_eq!(field[127], 0);
}

#[test]
fn two_icon_sources_are_equal_only_when_they_match() {
    let none: Option<TrayIconSource> = None;
    let path = TrayIconSource::Path("a.png".to_string());
    let same_path = TrayIconSource::Path("a.png".to_string());
    let other_path = TrayIconSource::Path("b.png".to_string());

    assert!(icons_equal(none.as_ref(), none.as_ref()));
    assert!(icons_equal(Some(&path), Some(&same_path)));
    assert!(!icons_equal(Some(&path), Some(&other_path)));
    // A path and an RGBA icon are different shapes, so they are unequal
    // without comparing a pixel buffer to a string.
    let rgba = TrayIconSource::Rgba {
        width: 1,
        height: 1,
        stride: 4,
        data: vec![0, 0, 0, 255],
    };
    assert!(!icons_equal(Some(&path), Some(&rgba)));
    // Absence is distinct from presence.
    assert!(!icons_equal(None, Some(&path)));
}

#[test]
fn rgba_icons_compare_by_shape_and_bytes() {
    let first = TrayIconSource::Rgba {
        width: 1,
        height: 1,
        stride: 4,
        data: vec![1, 2, 3, 4],
    };
    let identical = first.clone();
    let different_pixel = TrayIconSource::Rgba {
        width: 1,
        height: 1,
        stride: 4,
        data: vec![9, 2, 3, 4],
    };
    let different_shape = TrayIconSource::Rgba {
        width: 2,
        height: 1,
        stride: 4,
        data: vec![1, 2, 3, 4],
    };

    assert!(icons_equal(Some(&first), Some(&identical)));
    assert!(!icons_equal(Some(&first), Some(&different_pixel)));
    assert!(!icons_equal(Some(&first), Some(&different_shape)));
}

#[test]
fn an_icon_source_is_only_equal_to_itself_across_kinds() {
    let rgba = TrayIconSource::Rgba {
        width: 2,
        height: 2,
        stride: 8,
        data: vec![0; 16],
    };
    let same = rgba.clone();
    assert!(icons_equal(Some(&rgba), Some(&same)));
}

#[test]
fn menus_are_equal_when_they_are_the_same_handle() {
    let mut store = MenuStore::new();
    let menu = store.add(TrayMenu::new());
    let same = menu;
    let other = store.add(TrayMenu::new());

    assert!(menus_equal(Some(menu), Some(same)));
    assert!(!menus_equal(Some(menu), Some(other)));
    assert!(!menus_equal(None, Some(menu)));
    assert!(menus_equal(None, None));
}

fn push(store: &mut MenuStore, menu: MenuRef, item: MenuItem) {
    let contents = store.menu_mut(menu).expect("live menu");
    assert!(contents.push(item).is_ok());
}

/// Build a menu with one row of each interesting kind.
fn sample_menu() -> (MenuStore, MenuRef) {
    let mut store = MenuStore::new();
    let menu = store.add(TrayMenu::new());
    push(&mut store, menu, MenuItem::text("open"));
    push(&mut store, menu, MenuItem::separator());
    push(&mut store, menu, MenuItem::checkbox_checked("pin"));
    push(&mut store, menu, MenuItem::text_disabled("locked"));
    let child = store.add(TrayMenu::new());
    push(&mut store, child, MenuItem::text("inner"));
    push(&mut store, menu, MenuItem::submenu("more", child));
    assert!(store.nests(menu));
    (store, menu)
}

#[test]
fn command_ids_are_allocated_above_zero_and_uniquely() {
    let (store, menu) = sample_menu();
    let mut table = MenuTable::from_menu(&store, menu);
    // `from_menu` already allocated the rows; the ids must all be non-zero,
    // because 0 means "nothing chosen".
    let mut seen = Vec::new();
    for entry in table.entries() {
        assert_ne!(entry.command_id, 0, "0 is reserved for dismissal");
        assert!(
            !seen.contains(&entry.command_id),
            "command id {} is duplicated",
            entry.command_id
        );
        seen.push(entry.command_id);
    }
    assert!(seen.len() >= 5, "one entry per row: {}", seen.len());

    // A further allocation must not reuse an id.
    let extra = table.allocate("x".to_string(), None);
    assert!(!seen.contains(&extra));
    assert_ne!(extra, 0);
}

#[test]
fn a_command_id_resolves_to_the_row_callback() {
    let mut store = MenuStore::new();
    let menu = store.add(TrayMenu::new());
    let mut actions = ActionStore::new();
    let on_quit = TrayAction::new(&mut actions, 5);
    push(&mut store, menu, MenuItem::text_with_action("quit", on_quit));

    let mut table = MenuTable::from_menu(&store, menu);
    // Rebuild through `build` so the id of the popup row is the one the lookup
    // uses.
    let popup = table.build(&store, menu);
    assert_eq!(popup.len(), 1, "a menu must build");
    let action = table.action_for(FIRST_COMMAND_ID);
    assert!(action.is_some(), "the first row must be addressable");
    if let Some(action) = action {
        assert_eq!(
            action.invoke(&actions, &TrayEvent::Click),
            TrayCall {
                callback: 5,
                event: TrayEvent::Click
            }
        );
    }
    match &popup[0] {
        PopupRow::Command { command_id, .. } => {
            assert_eq!(table.action_for(*command_id), Some(on_quit))
        }
        other => panic!("unexpected row {other:?}"),
    }

    // An id that was never allocated resolves to nothing.
    assert!(table.action_for(60_000).is_none());
}

#[test]
fn nested_rows_get_their_own_ids_so_a_click_is_addressable() {
    let (store, menu) = sample_menu();
    let mut table = MenuTable::from_menu(&store, menu);
    assert!(!table.build(&store, menu).is_empty());

    // The nested row must be addressable on its own, independently of the
    // submenu row that contains it.
    let child = table
        .entries()
        .iter()
        .find(|entry| entry.label == "inner")
        .map(|entry| entry.command_id)
        .expect("a nested row must have its own command id");
    assert_ne!(child, 0);

    // Its id must differ from every top-level row's, so a click on the
    // child cannot be mistaken for a click on the submenu.
    let submenu_id = table
        .entries()
        .iter()
        .find(|entry| entry.label == "more")
        .map(|entry| entry.command_id)
        .expect("the submenu row must have its own command id");
    assert_ne!(child, submenu_id);
}

#[test]
fn a_menu_without_rows_still_encodes() {
    let mut store = MenuStore::new();
    let menu = store.add(TrayMenu::new());
    assert!(store.nests(menu));
    let mut table = MenuTable::from_menu(&store, menu);
    assert!(table.entries().is_empty());
    let popup = table.build(&store, menu);
    assert!(popup.is_empty(), "an empty menu is still a valid popup");
}

#[test]
fn popup_rows_carry_the_win32_flags() {
    let (mut store, menu) = sample_menu();
    let child = store.add(TrayMenu::new());
    let id = store
        .menu_mut(menu)
        .expect("live menu")
        .push(MenuItem::submenu("off", child))
        .expect("a valid row");
    assert!(store.menu_mut(menu).expect("live menu").set_enabled(id, false));
    let mut table = MenuTable::new();
    let rows = table.build(&store, menu);
    let flags: Vec<u32> = rows
        .iter()
        .map(|row| match row {
            PopupRow::Separator => MF_SEPARATOR,
            PopupRow::Command { flags, .. } => *flags,
            PopupRow::Popup { flags, .. } => *flags,
        })
        .collect();
    assert_eq!(
        flags,
        vec![
            MF_STRING,
            MF_SEPARATOR,
            MF_STRING | MF_CHECKED,
            MF_STRING | MF_DISABLED | MF_GRAYED,
            MF_POPUP,
            MF_POPUP | MF_DISABLED | MF_GRAYED,
        ]
    );
    match &rows[4] {
        PopupRow::Popup { label, rows, .. } => {
            assert_eq!(from_wide(label), "more");
            assert_eq!(rows.len(), 1);
        }
        other => panic!("unexpected row {other:?}"),
    }
}

#[test]
fn tray_constants_are_those_of_win32() {
    assert_eq!((MF_STRING, MF_GRAYED, MF_DISABLED), (0, 1, 2));
    assert_eq!((MF_CHECKED, MF_POPUP, MF_SEPARATOR), (8, 16, 2048));
    assert_eq!((NIF_MESSAGE, NIF_ICON, NIF_TIP, NIF_STATE), (1, 2, 4, 8));
    assert_eq!(NIS_HIDDEN, 1);
    assert_eq!(WM_COMMAND, 273);
    assert_eq!((WM_LBUTTONUP, WM_LBUTTONDBLCLK), (514, 515));
    assert_eq!((WM_RBUTTONDOWN, WM_RBUTTONUP), (516, 517));
    assert_eq!(WM_CONTEXTMENU, 123);
    assert_eq!(POPUP_FLAGS, 32 | 2 | 256);
    assert_eq!(ERROR_CLASS_ALREADY_EXISTS, 1410);
}

#[test]
fn advertised_capabilities_admit_double_click() {
    let capabilities = WindowsTrayManager::advertised_capabilities();
    assert!(capabilities.contains(Capability::SYSTEM_TRAY));
    assert!(capabilities.contains(Capability::TRAY_ICON));
    assert!(capabilities.contains(Capability::TRAY_TOOLTIP));
    assert!(capabilities.contains(Capability::TRAY_CLICK));
    assert!(capabilities.contains(Capability::TRAY_CONTEXT_MENU));
    assert!(capabilities.contains(Capability::TRAY_CHECKBOX));
    assert!(capabilities.contains(Capability::TRAY_DYNAMIC_MENU));
    // The one capability Windows can honestly claim and Linux cannot.
    assert!(capabilities.contains(Capability::TRAY_DOUBLE_CLICK));
}

#[test]
fn support_level_is_full_for_every_advertised_feature() {
    let manager = WindowsTrayManager::new();
    for feature in [
        TrayFeature::Icon,
        TrayFeature::Tooltip,
        TrayFeature::Click,
        TrayFeature::DoubleClick,
        TrayFeature::ContextMenu,
        TrayFeature::Checkbox,
        TrayFeature::DynamicMenu,
    ] {
        assert_eq!(
            manager.support_level(feature),
            SupportLevel::Full,
            "{feature:?} must be fully supported on Windows"
        );
    }
    assert_eq!(
        manager.capabilities(),
        WindowsTrayManager::advertised_capabilities()
    );
}

#[test]
fn the_callback_message_is_out_of_the_hosts_reserved_range() {
    // The callback id must be >= WM_USER, and using `WM_APP` leaves the whole
    // `WM_USER` range free for the host.
    const WM_USER: u32 = 0x0400;
    assert!(CALLBACK_MESSAGE >= WM_USER);
    assert_eq!(CALLBACK_MESSAGE, 0x8000);
}

#[test]
fn the_sync_interval_is_a_polite_poll() {
    // Fast enough that a tooltip change feels immediate, slow enough that
    // an idle icon costs nothing.
    assert!(SYNC_INTERVAL_MS >= 50);
    assert!(SYNC_INTERVAL_MS <= 500);
    assert_ne!(SYNC_TIMER_ID, 0, "timer id 0 is invalid");
}

#[test]
fn the_window_class_name_is_process_unique() {
    // The name must be a fixed prefix so the suffix can be appended per
    // icon, and it must not contain characters a class name cannot carry.
    let name = CLASS_NAME;
    assert!(!name.is_empty());
    assert!(!name.contains('.'));
    assert!(!name.contains(' '));
    assert_eq!(name, "UDA_TrayMessageWindow");
    assert_eq!(WindowsTrayManager::window_class(7), "UDA_TrayMessageWindow_7");
    assert_ne!(
        WindowsTrayManager::window_class(1),
        WindowsTrayManager::window_class(11)
    );
}

#[test]
fn a_config_seeds_the_mirror_with_the_registered_values() {
    let mut store = MenuStore::new();
    let menu = store.add(TrayMenu::new());
    push(&mut store, menu, MenuItem::text("open"));
    let config = TrayIconConfig {
        name: "test".to_string(),
        icon: Some(TrayIconSource::Path("app.ico".to_string())),
        tooltip: "hello".to_string(),
        menu: Some(menu),
        on_click: None,
        on_double_click: None,
    };

    let mut state = TrayShared::from_config(&config);
    assert_eq!(state.name, "test");
    assert_eq!(state.tooltip, "hello");
    assert_eq!(state.icon, Some(TrayIconSource::Path("app.ico".to_string())));
    assert!(state.menu.is_some());
    // A freshly registered icon is visible; hiding it is the only way to
    // change that, so the mirror must start out shown.
    assert!(state.visible);
    assert!(!state.shutdown);
    assert!(state.on_click.is_none());

    // Syncing from nothing must be a no-op rather than a panic.
    state.sync_from(None);
    assert_eq!(state.tooltip, "hello");
}

#[test]
fn the_mirror_tracks_host_updates() {
    let mut store = MenuStore::new();
    let mut icon = TrayIcon::from_inner(TrayIconInner::new("test".to_string()));
    let config = TrayIconConfig {
        name: "test".to_string(),
        icon: Some(TrayIconSource::Path("app.ico".to_string())),
        tooltip: "first".to_string(),
        menu: None,
        on_click: None,
        on_double_click: None,
    };
    let mut state = TrayShared::from_config(&config);
    state.sync_from(Some(&icon.inner().state));

    // A host tooltip change must reach the mirror.
    icon.set_tooltip("second");
    state.sync_from(Some(&icon.inner().state));
    assert_eq!(state.tooltip, "second");

    // An icon swap must be visible too.
    assert!(icon
        .set_icon(TrayIconSource::Path("b.ico".to_string()))
        .is_ok());
    state.sync_from(Some(&icon.inner().state));
    assert_eq!(state.icon, Some(TrayIconSource::Path("b.ico".to_string())));

    // Hiding the icon must reach the mirror.
    icon.hide_icon();
    state.sync_from(Some(&icon.inner().state));
    assert!(!state.visible);

    // A rejected icon leaves the previous one in place.
    assert!(icon.set_icon(TrayIconSource::Path(String::new())).is_err());
    state.sync_from(Some(&icon.inner().state));
    assert_eq!(state.icon, Some(TrayIconSource::Path("b.ico".to_string())));

    // A menu attached by the host must show up.
    let menu = store.add(TrayMenu::new());
    icon.set_menu(menu);
    state.sync_from(Some(&icon.inner().state));
    assert!(state.menu.is_some());
}

#[test]
fn dropping_the_host_sets_the_shutdown_flag_the_worker_polls() {
    let mut icon = TrayIcon::from_inner(TrayIconInner::new("test".to_string()));
    let mut state = TrayShared::from_config(&TrayIconConfig::new("test"));

    assert!(!icon.inner().state.shutdown);
    state.sync_from(Some(&icon.inner().state));
    assert!(!state.shutdown, "a live host is not shut down");

    icon.shut_down();
    state.sync_from(Some(&icon.inner().state));
    assert!(state.shutdown, "the worker must see the drop");
}

#[test]
fn the_worker_state_is_shared_across_the_arc() {
    // The mirror lives behind one lock, so every holder observes the same state.
    let shared = std::sync::Arc::new(std::sync::Mutex::new(TrayShared::from_config(
        &TrayIconConfig::new("shared"),
    )));
    let clone = std::sync::Arc::clone(&shared);
    shared.lock().expect("not poisoned").tooltip = "written once".to_string();
    assert_eq!(clone.lock().expect("not poisoned").tooltip, "written once");
}

// The worker ---------------------------------------------------------------

fn worker(actions: &mut ActionStore, store_menu: Option<MenuRef>) -> Worker {
    let mut config = TrayIconConfig::new("test");
    config.tooltip = "tip".to_string();
    config.menu = store_menu;
    config.on_click = Some(TrayAction::new(actions, 1));
    Worker::new(TrayShared::registered(&config), 3)
}

#[test]
fn an_icon_is_added_to_the_window_and_released_before_it() {
    let mut worker = worker(&mut ActionStore::new(), None);
    assert!(worker.add_request(Some(8)).is_none(), "there is no window yet");
    worker.window_created(77);
    let request = worker.add_request(Some(8)).expect("the window is there");
    assert_eq!(request.window, 77);
    assert_eq!(request.icon_id, 3);
    assert_eq!(request.flags, NIF_MESSAGE | NIF_TIP | NIF_ICON);
    assert_eq!(request.callback_message, CALLBACK_MESSAGE);
    assert_eq!(from_wide(&request.tip), "tip");
    assert_eq!(request.tip.len(), 128);

    // A refused icon is handed back, and nothing has to be unregistered.
    assert_eq!(worker.added(Some(8), false), Some(8));
    assert_eq!(worker.added(Some(9), true), None);
    worker.version_answered(false);

    let plan = worker.teardown();
    assert_eq!(plan.unregister, Some(77));
    assert_eq!(plan.destroy_icon, Some(9));
    assert_eq!(plan.destroy_window, Some(77));
    let again = worker.teardown();
    assert_eq!(
        (again.unregister, again.destroy_icon, again.destroy_window),
        (None, None, None)
    );
}

#[test]
fn refused_updates_stay_pending_and_accepted_ones_do_not() {
    let mut worker = worker(&mut ActionStore::new(), None);
    worker.window_created(77);
    assert_eq!(worker.added(Some(9), true), None);
    let mut host = TrayIconState::default();
    host.tooltip = "new".to_string();
    host.icon = Some(TrayIconSource::Path("a.ico".to_string()));
    let expected = Tick::Continue {
        visibility: false,
        contents: true,
        menu: false,
    };
    assert_eq!(worker.on_tick(Some(&host)), expected);
    assert!(worker.source_to_show().is_some());

    // Refused: nothing is retired, the present icon stays.
    assert_eq!(worker.refreshed(Refresh::Contents, Some(10), false), None);
    assert_eq!(worker.on_tick(Some(&host)), expected);

    // Accepted: the previous icon goes.
    let request = worker.refresh_request(Some(11)).expect("the window is there");
    assert_eq!(request.icon, Some(11));
    assert_eq!((request.state, request.state_mask), (0, NIS_HIDDEN));
    assert_eq!(worker.refreshed(Refresh::Contents, Some(11), true), Some(9));
    assert_eq!(
        worker.on_tick(Some(&host)),
        Tick::Continue {
            visibility: false,
            contents: false,
            menu: false
        }
    );

    // Hiding keeps the registration but draws nothing.
    host.visible = false;
    assert_eq!(
        worker.on_tick(Some(&host)),
        Tick::Continue {
            visibility: true,
            contents: false,
            menu: false
        }
    );
    assert!(worker.source_to_show().is_none());
    let request = worker.refresh_request(None).expect("the window is there");
    assert_eq!(request.icon, None);
    assert_eq!((request.state, request.state_mask), (NIS_HIDDEN, NIS_HIDDEN));
    assert_eq!(worker.refreshed(Refresh::Visibility, None, true), None);

    // Showing it again clears the hidden bit and draws the same icon.
    host.visible = true;
    assert_eq!(
        worker.on_tick(Some(&host)),
        Tick::Continue {
            visibility: true,
            contents: false,
            menu: false
        }
    );
    let request = worker.refresh_request(None).expect("the window is there");
    assert_eq!(request.icon, Some(11));
    assert_eq!((request.state, request.state_mask), (0, NIS_HIDDEN));

    host.shutdown = true;
    assert_eq!(worker.on_tick(Some(&host)), Tick::Stop);
}

#[test]
fn callbacks_are_told_apart_by_icon_and_button() {
    let mut actions = ActionStore::new();
    let worker = worker(&mut actions, None);
    let callback = |message: u32| worker.on_callback(3, message as isize);
    assert_eq!(callback(WM_LBUTTONUP), Callback::Report(TrayEvent::Click));
    assert_eq!(
        callback(WM_LBUTTONDBLCLK),
        Callback::Report(TrayEvent::DoubleClick)
    );
    assert_eq!(callback(WM_RBUTTONUP), Callback::ShowMenu);
    assert_eq!(callback(WM_RBUTTONDOWN), Callback::ShowMenu);
    assert_eq!(callback(WM_CONTEXTMENU), Callback::ShowMenu);
    assert_eq!(callback(0x0200), Callback::Default);
    assert_eq!(worker.on_callback(4, WM_LBUTTONUP as isize), Callback::Ignore);
    assert_eq!(
        worker.dispatch(&actions, TrayEvent::Click),
        Some(TrayCall {
            callback: 1,
            event: TrayEvent::Click
        })
    );
    assert_eq!(worker.dispatch(&actions, TrayEvent::DoubleClick), None);
}

#[test]
fn a_chosen_row_calls_its_handler() {
    let mut store = MenuStore::new();
    let menu = store.add(TrayMenu::new());
    let mut actions = ActionStore::new();
    let on_quit = TrayAction::new(&mut actions, 5);
    push(&mut store, menu, MenuItem::text_with_action("quit", on_quit));
    let mut worker = worker(&mut actions, Some(menu));
    worker.rebuild_menu(&store);
    assert_eq!(worker.menu_table().entries().len(), 1);
    let rows = worker.show_menu(&store).expect("a menu is attached");
    let id = match &rows[0] {
        PopupRow::Command { command_id, .. } => *command_id,
        other => panic!("unexpected row {other:?}"),
    };
    assert_eq!(worker.chosen(&actions, i32::from(id)).map(|call| call.callback), Some(5));
    assert_eq!(worker.on_command(&actions, id).map(|call| call.callback), Some(5));
    assert_eq!(worker.chosen(&actions, 0), None);
    assert_eq!(worker.chosen(&actions, 999), None);
}

#[test]
fn window_messages_are_routed() {
    assert_eq!(route_message(CALLBACK_MESSAGE, 0), Message::Callback);
    assert_eq!(route_message(WM_COMMAND, 0x1_0002), Message::Command(2));
    assert_eq!(route_message(1, 0), Message::Default);
    assert!(keeps_pumping(1));
    assert!(!keeps_pumping(0));
    assert!(!keeps_pumping(-1));
    assert_eq!(menu_point(Some((4, 5))), (4, 5));
    assert_eq!(menu_point(None), (0, 0));
    assert!(class_is_available(1, 0));
    assert!(class_is_available(0, ERROR_CLASS_ALREADY_EXISTS));
    assert!(!class_is_available(0, 5));
}

#[test]
fn setup_stops_at_the_first_fatal_step() {
    let mut step = SetupStep::FindModule;
    let mut steps = Vec::new();
    while step != SetupStep::Ready {
        steps.push(step);
        step = match step.after(None) {
            Ok(next) => next,
            Err(error) => panic!("{}", error.message()),
        };
    }
    assert_eq!(
        steps,
        vec![
            SetupStep::FindModule,
            SetupStep::RegisterClass,
            SetupStep::CreateWindow,
            SetupStep::CheckWindow,
            SetupStep::AddIcon,
            SetupStep::SetVersion
        ]
    );
    let message = |step: SetupStep| step.after(Some("x")).map_err(|error| error.message());
    assert_eq!(
        message(SetupStep::FindModule),
        Err("Internal error: GetModuleHandleW failed: x".to_string())
    );
    assert_eq!(
        message(SetupStep::RegisterClass),
        Err("Internal error: could not register the tray window class".to_string())
    );
    assert_eq!(
        message(SetupStep::CreateWindow),
        Err("Internal error: could not create the tray window: x".to_string())
    );
    assert_eq!(
        message(SetupStep::AddIcon),
        Err("Feature not supported: the shell refused to add a tray icon".to_string())
    );
    assert_eq!(message(SetupStep::SetVersion), Ok(SetupStep::Ready));
}

#[test]
fn the_host_hears_what_became_of_the_worker() {
    let answer = |readiness| WindowsTrayManager::worker_answer(readiness);
    assert!(answer(Readiness::Ready).is_ok());
    assert!(matches!(
        answer(Readiness::Failed("no shell".to_string())),
        Err(UdaError::NotSupported(text)) if text == "no shell"
    ));
    assert!(matches!(
        answer(Readiness::TimedOut),
        Err(UdaError::Internal(text)) if text == "the tray worker did not report readiness in time"
    ));
    assert!(matches!(
        answer(Readiness::NotStarted("x".to_string())),
        Err(UdaError::Internal(text)) if text == "could not spawn the tray worker: x"
    ));
}

#[test]
fn a_registered_icon_publishes_the_backend_capabilities() {
    match WindowsTrayManager::new().create(TrayIconConfig::new("player")) {
        Ok(icon) => {
            assert_eq!(icon.name(), "player");
            assert_eq!(icon.capabilities(), WindowsTrayManager::advertised_capabilities());
        }
        Err(error) => panic!("create failed: {}", error.message()),
    }
}

#[test]
fn a_registration_reads_back_and_its_mirror_agrees() {
    let mut store = MenuStore::new();
    let menu = store.add(TrayMenu::new());
    let long = "t".repeat(200);
    let mut config = TrayIconConfig::new("player");
    config.tooltip = long.clone();
    config.icon = Some(TrayIconSource::Path("app.ico".to_string()));
    config.menu = Some(menu);
    let mut worker = Worker::new(TrayShared::registered(&config), 1);
    let icon = match WindowsTrayManager::new().create(config) {
        Ok(icon) => icon,
        Err(error) => panic!("create failed: {}", error.message()),
    };
    assert_eq!(icon.tooltip(), sanitize_tooltip(&long));
    assert_eq!(icon.tooltip().chars().count(), 127);
    assert_eq!(icon.support_level(TrayFeature::Tooltip), SupportLevel::Partial);
    assert_eq!(icon.menu(), Some(menu));
    assert!(icon.is_visible());

    assert_eq!(worker.shared().tooltip, icon.tooltip());
    worker.on_tick(Some(&icon.inner().state));
    assert_eq!(worker.shared().tooltip, icon.tooltip());
    assert_eq!(worker.shared().menu, Some(menu));
    assert_eq!(
        worker.shared().icon,
        Some(TrayIconSource::Path("app.ico".to_string()))
    );
}

#[test]
fn an_icon_without_a_tooltip_shows_its_name() {
    let mut worker = Worker::new(
        TrayShared::registered(&TrayIconConfig::new("player")),
        1,
    );
    worker.window_created(7);
    let request = worker.add_request(None).expect("the window is there");
    assert_eq!(from_wide(&request.tip), "player");
    let mut host = TrayIconState::default();
    host.tooltip = "playing".to_string();
    worker.on_tick(Some(&host));
    let request = worker.refresh_request(None).expect("the window is there");
    assert_eq!(from_wide(&request.tip), "playing");
    host.tooltip = String::new();
    worker.on_tick(Some(&host));
    let request = worker.refresh_request(None).expect("the window is there");
    assert_eq!(from_wide(&request.tip), "player");
}
