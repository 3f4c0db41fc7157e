use uda::capability::{Capability, SupportLevel};
use uda::error::UdaError;
use uda::platform_linux::dbusmenu::{MenuRow, MenuSnapshot};
use uda::platform_linux::dbusmenu_export::{
    DBusMenuInterface, Property, PropertyValue, MENU_PATH,
};
use uda::platform_linux::tray::{
    host_released, keeps_serving, no_watcher_error, rgba_to_argb, seed_host_state, spawn_error,
    watcher_interface, watcher_service, IconPayload, LinuxTrayManager, StatusNotifierItemInterface, TrayShared,
    WorkerStep, DOUBLE_CLICK_WINDOW, SHUTDOWN_POLL_INTERVAL, SNI_PATH, WATCHER_FALLBACK_INTERFACE,
    WATCHER_INTERFACE,
};
use uda::platform_linux::appearance::ProbeAnswer;
use uda::platform_linux::variant::{
    encode_layout, notification_hints, owned_props, portal_answer, property_variant,
};
use uda::tray::event::{ActionStore, TrayAction, TrayCall, TrayEvent};
use uda::tray::icon::{
    TrayFeature, TrayIcon, TrayIconConfig, TrayIconInner, TrayIconState, TrayManager,
};
use uda::tray::item::{MenuItem, MenuRef};
use uda::tray::menu::TrayMenu;
use uda::tray::pixels::{transcode, RowOrder};
use uda::tray::source::TrayIconSource;
use uda::tray::store::MenuStore;

/// A 2x2 RGBA icon whose stride is larger than the pixel width, so the padding
/// bytes must be skipped rather than copied.
fn padded_rgba() -> TrayIconSource {
    let mut data = Vec::new();
    for row in 0..2u8 {
        data.extend_from_slice(&[
            10 + row,
            20 + row,
            30 + row,
            255,
            40 + row,
            50 + row,
            60 + row,
            255,
        ]);
        data.extend_from_slice(&[0xAA, 0xBB, 0xCC, 0xDD]);
    }
    TrayIconSource::Rgba {
        width: 2,
        height: 2,
        stride: 12,
        data,
    }
}

#[test]
fn rgba_is_converted_to_bottom_up_bgra() {
    let pixmap = match rgba_to_argb(&padded_rgba()) {
        Some(pixmap) => pixmap,
        None => panic!("a valid icon must transcribe"),
    };
    assert_eq!(pixmap.len(), 1);
    let (width, height, bytes) = &pixmap[0];
    assert_eq!(*width, 2);
    assert_eq!(*height, 2);
    assert_eq!(bytes.len(), 16);
    assert_eq!(&bytes[0..4], &[31, 21, 11, 255]);
    assert_eq!(&bytes[4..8], &[61, 51, 41, 255]);
    assert_eq!(&bytes[8..12], &[30, 20, 10, 255]);
    assert_eq!(&bytes[12..16], &[60, 50, 40, 255]);
}

#[test]
fn red_and_blue_are_not_swapped() {
    let source = TrayIconSource::Rgba {
        width: 1,
        height: 1,
        stride: 4,
        data: vec![0xDE, 0xAD, 0xBE, 0xEF],
    };
    let pixmap = rgba_to_argb(&source).expect("one pixel must transcribe");
    let bytes = &pixmap[0].2;
    assert_eq!(bytes, &vec![0xBE, 0xAD, 0xDE, 0xEF]);
}

#[test]
fn a_fully_transparent_pixel_keeps_its_colour_channels() {
    let source = TrayIconSource::Rgba {
        width: 1,
        height: 1,
        stride: 4,
        data: vec![0x12, 0x34, 0x56, 0x00],
    };
    let pixmap = rgba_to_argb(&source).expect("one pixel must transcribe");
    assert_eq!(pixmap[0].2, vec![0x56, 0x34, 0x12, 0x00]);
}

#[test]
fn conversion_skips_stride_padding() {
    // If the padding leaked in, these pixels would read 0xAA/0xBB/0xCC.
    let pixmap = rgba_to_argb(&padded_rgba()).expect("a valid icon must transcribe");
    let bytes = &pixmap[0].2;
    assert!(!bytes.contains(&0xAA));
    assert!(!bytes.contains(&0xBB));
    assert!(!bytes.contains(&0xCC));
}

#[test]
fn conversion_rejects_inconsistent_buffers() {
    // stride < width * 4
    let bad_stride = TrayIconSource::Rgba {
        width: 2,
        height: 2,
        stride: 4,
        data: vec![0; 16],
    };
    assert!(rgba_to_argb(&bad_stride).is_none());

    // data shorter than stride * height
    let short = TrayIconSource::Rgba {
        width: 2,
        height: 2,
        stride: 8,
        data: vec![0; 12],
    };
    assert!(rgba_to_argb(&short).is_none());

    // zero dimensions
    let empty = TrayIconSource::Rgba {
        width: 0,
        height: 2,
        stride: 0,
        data: Vec::new(),
    };
    assert!(rgba_to_argb(&empty).is_none());

    // A path icon carries no pixels at all.
    assert!(rgba_to_argb(&TrayIconSource::Path("app.png".to_string())).is_none());
}

#[test]
fn a_path_icon_becomes_a_theme_name() {
    let payload = IconPayload::from_source(&TrayIconSource::Path("  app.png  ".to_string()));
    assert_eq!(payload, IconPayload::Name("app.png".to_string()));

    // A blank path degrades to the "missing" placeholder rather than to no icon
    // at all: the host supplied something, it just was not usable.
    let blank = IconPayload::from_source(&TrayIconSource::Path("   ".to_string()));
    assert_eq!(blank, IconPayload::Name("image-missing".to_string()));
}

#[test]
fn an_invalid_icon_degrades_instead_of_panicking() {
    let payload = IconPayload::from_source(&TrayIconSource::Rgba {
        width: 0,
        height: 0,
        stride: 0,
        data: Vec::new(),
    });
    assert_eq!(payload, IconPayload::Name("image-missing".to_string()));
}

fn push(store: &mut MenuStore, menu: MenuRef, item: MenuItem) {
    let contents = store.menu_mut(menu).expect("live menu");
    assert!(contents.push(item).is_ok());
}

/// A menu with one of each interesting row kind.
fn sample_menu() -> (MenuStore, MenuRef) {
    let mut store = MenuStore::new();
    let menu = store.add(TrayMenu::new());
    push(&mut store, menu, MenuItem::text("open"));
    push(&mut store, menu, MenuItem::separator());
    push(&mut store, menu, MenuItem::checkbox_checked("pin"));
    push(&mut store, menu, MenuItem::text_disabled("locked"));
    let child = store.add(TrayMenu::new());
    push(&mut store, child, MenuItem::text("inner"));
    push(&mut store, menu, MenuItem::submenu("more", child));
    assert!(store.nests(menu));
    (store, menu)
}

fn sample_snapshot() -> MenuSnapshot {
    let (store, menu) = sample_menu();
    MenuSnapshot::from_menu(&store, Some(menu)).expect("a menu must snapshot")
}

fn value<'a>(properties: &'a [Property], name: &str) -> Option<&'a PropertyValue> {
    properties
        .iter()
        .find(|property| property.name == name)
        .map(|property| &property.value)
}

fn text(value: &str) -> PropertyValue {
    PropertyValue::Text(value.to_string())
}

#[test]
fn menu_rows_carry_the_documented_properties() {
    let snapshot = sample_snapshot();
    let rows = snapshot.rows();
    assert_eq!(rows.len(), 5);

    let first = &rows[0];
    assert_eq!(first.id, 1);
    assert_eq!(first.label.as_deref(), Some("open"));
    assert!(first.enabled);
    assert!(!first.checkbox);
    let props = first.properties();
    assert_eq!(value(&props, "type"), Some(&text("standard")));
    assert_eq!(value(&props, "enabled"), Some(&PropertyValue::Flag(true)));
    assert_eq!(value(&props, "visible"), Some(&PropertyValue::Flag(true)));

    let separator = &rows[1];
    assert_eq!(separator.kind(), "separator");
    assert!(!separator.enabled);
    assert!(separator.label.is_none());

    let checkbox = &rows[2];
    assert!(checkbox.checkbox);
    assert!(checkbox.checked);
    let props = checkbox.properties();
    assert_eq!(value(&props, "toggle-type"), Some(&text("checkmark")));
    assert_eq!(value(&props, "toggle-state"), Some(&PropertyValue::Number(1)));

    let locked = &rows[3];
    assert!(!locked.enabled);
    let props = locked.properties();
    assert_eq!(value(&props, "enabled"), Some(&PropertyValue::Flag(false)));

    let submenu = &rows[4];
    assert_eq!(submenu.children.len(), 1);
    // A submenu is encoded through `children-display`, not `toggle-type`.
    let props = submenu.properties();
    assert_eq!(value(&props, "children-display"), Some(&text("submenu")));
}

fn collect_ids(rows: &[MenuRow], out: &mut Vec<i32>) {
    for row in rows {
        out.push(row.id);
        collect_ids(&row.children, out);
    }
}

#[test]
fn dbusmenu_ids_are_allocated_contiguously() {
    let snapshot = sample_snapshot();
    // Top-level ids come first, then the nested child.
    let submenu = &snapshot.rows()[4];
    assert_eq!(submenu.id, 5);
    assert_eq!(submenu.children[0].id, 6);
    assert_eq!(submenu.children[0].label.as_deref(), Some("inner"));

    // Every id in the tree is unique, which is what lets an event address
    // exactly one row.
    let mut ids = Vec::new();
    collect_ids(snapshot.rows(), &mut ids);
    ids.sort_unstable();
    let before = ids.len();
    ids.dedup();
    assert_eq!(ids.len(), before, "duplicate dbusmenu id allocated");
    assert_eq!(ids, vec![1, 2, 3, 4, 5, 6]);
}

#[test]
fn an_event_is_addressed_by_id() {
    let mut store = MenuStore::new();
    let menu = store.add(TrayMenu::new());
    let mut actions = ActionStore::new();
    let on_quit = TrayAction::new(&mut actions, 3);
    push(&mut store, menu, MenuItem::text_with_action("quit", on_quit));

    let snapshot = MenuSnapshot::from_menu(&store, Some(menu)).expect("a menu must snapshot");
    let id = snapshot.rows()[0].id;
    let action = snapshot.row(id).and_then(|row| row.action);
    let action = match action {
        Some(action) => action,
        None => panic!("the callback must travel with the row"),
    };
    assert_eq!(
        action.invoke(&actions, &TrayEvent::Click),
        TrayCall {
            callback: 3,
            event: TrayEvent::Click
        }
    );

    // An unknown id must be reported as absent, not panic.
    assert!(snapshot.row(9_999).is_none());
}

#[test]
fn the_layout_root_carries_id_zero() {
    let snapshot = sample_snapshot();
    let root = snapshot.root_node(true);
    assert_eq!(root.id, 0, "dbusmenu's root id is 0");
    assert_eq!(root.children.len(), 5);
    assert_eq!(root.children[4].children.len(), 1);
    let child = snapshot.root_node(false);
    // A non-recursive request must still name the children, so the shell can
    // ask for a submenu on demand.
    assert_eq!(child.children.len(), 5);
    assert_eq!(child.children[4].children.len(), 0);
}

#[test]
fn bus_names_are_unique_and_sanitised() {
    let first = LinuxTrayManager::bus_name("My App", 77, 0);
    let second = LinuxTrayManager::bus_name("My App", 77, 1);
    assert_ne!(first, second, "the counter must disambiguate");
    assert!(first.starts_with("org.kde.StatusNotifierItem-My-App-"));
    assert!(!first.contains(' '), "a space cannot appear in a bus name");
    assert_eq!(first, "org.kde.StatusNotifierItem-My-App-77-0");

    // Every character a bus name cannot carry is replaced, not dropped.
    let blank = LinuxTrayManager::bus_name("   ", 77, 2);
    assert!(
        blank.starts_with("org.kde.StatusNotifierItem----"),
        "punctuation is sanitised, not discarded: {blank}"
    );

    // A genuinely empty name falls back to the shared default.
    let empty = LinuxTrayManager::bus_name("", 77, 3);
    assert!(empty.starts_with("org.kde.StatusNotifierItem-UDA-"));

    let dotted = LinuxTrayManager::bus_name("a.b", 77, 4);
    assert!(
        dotted.starts_with("org.kde.StatusNotifierItem-a-b-"),
        "a dot in the label is replaced, not dropped: {dotted}"
    );
    let label = dotted
        .strip_prefix("org.kde.StatusNotifierItem-")
        .unwrap_or_default();
    assert!(
        !label.contains('.'),
        "the application label must not contribute a separator: {label}"
    );
}

#[test]
fn advertised_capabilities_omit_double_click() {
    let capabilities = LinuxTrayManager::advertised_capabilities();
    assert!(capabilities.contains(Capability::SYSTEM_TRAY));
    assert!(capabilities.contains(Capability::TRAY_ICON));
    assert!(capabilities.contains(Capability::TRAY_TOOLTIP));
    assert!(capabilities.contains(Capability::TRAY_CLICK));
    assert!(capabilities.contains(Capability::TRAY_CONTEXT_MENU));
    assert!(capabilities.contains(Capability::TRAY_CHECKBOX));
    assert!(capabilities.contains(Capability::TRAY_DYNAMIC_MENU));
    // The one feature the protocol cannot deliver natively.
    assert!(!capabilities.contains(Capability::TRAY_DOUBLE_CLICK));
}

#[test]
fn support_level_is_honest() {
    let manager = LinuxTrayManager::new();
    assert_eq!(manager.support_level(TrayFeature::Icon), SupportLevel::Full);
    assert_eq!(manager.support_level(TrayFeature::Tooltip), SupportLevel::Full);
    assert_eq!(manager.support_level(TrayFeature::Click), SupportLevel::Full);
    assert_eq!(
        manager.support_level(TrayFeature::DoubleClick),
        SupportLevel::Unsupported
    );
    assert_eq!(manager.capabilities(), LinuxTrayManager::advertised_capabilities());
}

#[test]
fn the_worker_state_is_shared_across_clones() {
    // The state lives behind one lock, so every holder observes the same state
    // and never a copy.
    let item = std::sync::Arc::new(std::sync::Mutex::new(StatusNotifierItemInterface::new(
        TrayShared::default(),
    )));
    let clone = std::sync::Arc::clone(&item);
    {
        let mut state = item.lock().expect("not poisoned");
        state.shared_mut().tooltip = "shared".to_string();
    }
    assert_eq!(clone.lock().expect("not poisoned").snapshot().tooltip, "shared");
    assert_eq!(item.lock().expect("not poisoned").snapshot().tooltip, "shared");
}

#[test]
fn the_state_mirror_tracks_host_updates() {
    let mut store = MenuStore::new();
    let mut icon = TrayIcon::from_inner(TrayIconInner::new("test".to_string()));
    let config = TrayIconConfig {
        name: "test".to_string(),
        icon: Some(TrayIconSource::Path("app.png".to_string())),
        tooltip: "hello".to_string(),
        menu: None,
        on_click: None,
        on_double_click: None,
    };
    seed_host_state(icon.inner_mut(), &config);
    let mut state = TrayShared::from_config(&config);
    state.sync_from(Some(&icon.inner().state));
    assert_eq!(state.icon, IconPayload::Name("app.png".to_string()));

    // A host tooltip change must reach the worker.
    icon.set_tooltip("updated");
    state.sync_from(Some(&icon.inner().state));
    assert_eq!(state.tooltip, "updated");

    // A rejected icon must leave the previous one in place.
    assert!(icon.set_icon(TrayIconSource::Path(String::new())).is_err());
    state.sync_from(Some(&icon.inner().state));
    assert_eq!(state.icon, IconPayload::Name("app.png".to_string()));

    // A menu attached by the host must show up too.
    let menu = store.add(TrayMenu::new());
    icon.set_menu(menu);
    state.sync_from(Some(&icon.inner().state));
    assert!(state.menu.is_some());
    assert!(MenuSnapshot::from_menu(&store, state.menu).is_some());
}

#[test]
fn two_activations_inside_the_window_produce_a_double_click() {
    let mut actions = ActionStore::new();
    let mut shared = TrayShared::default();
    shared.on_click = Some(TrayAction::new(&mut actions, 1));
    shared.on_double_click = Some(TrayAction::new(&mut actions, 2));
    let mut item = StatusNotifierItemInterface::new(shared);

    let click = Some(TrayCall {
        callback: 1,
        event: TrayEvent::Click,
    });
    let double_click = Some(TrayCall {
        callback: 2,
        event: TrayEvent::DoubleClick,
    });
    let start = 10 * DOUBLE_CLICK_WINDOW;
    assert_eq!(item.dispatch_activation(&actions, start), click);
    assert_eq!(item.dispatch_activation(&actions, start + 1), double_click);

    // The window restarts on every activation, so a later pair reads as
    // click-then-double again rather than one long double.
    let later = start + 1 + 2 * DOUBLE_CLICK_WINDOW;
    assert_eq!(item.dispatch_activation(&actions, later), click);
    assert_eq!(item.dispatch_activation(&actions, later + DOUBLE_CLICK_WINDOW), double_click);
    assert_eq!(
        item.dispatch_activation(&actions, later + 2 * DOUBLE_CLICK_WINDOW + 1),
        click
    );
}

#[test]
fn the_double_click_window_is_half_a_second() {
    assert_eq!(DOUBLE_CLICK_WINDOW, 500 * 1_000_000);
    assert_eq!(SHUTDOWN_POLL_INTERVAL, 200 * 1_000_000);
}

#[test]
fn the_item_snapshot_reflects_visibility() {
    let mut state = TrayShared::default();
    state.tooltip = "tip".to_string();
    let snapshot = state.item_snapshot();
    assert_eq!(snapshot.tooltip, "tip");
    assert!(snapshot.visible);

    state.visible = false;
    assert!(!state.item_snapshot().visible);
}

#[test]
fn a_worker_sees_the_host_drop_as_shutdown() {
    let mut icon = TrayIcon::from_inner(TrayIconInner::new("test".to_string()));
    assert!(!host_released(Some(&icon.inner().state)));
    assert!(keeps_serving(false, Some(&icon.inner().state)));
    icon.shut_down();
    assert!(host_released(Some(&icon.inner().state)));
    assert!(!keeps_serving(false, Some(&icon.inner().state)));
    assert!(host_released(None), "without a host nothing owns the icon");
}

#[test]
fn the_owned_properties_round_trip_through_a_variant() {
    let snapshot = sample_snapshot();
    let props = owned_props(&snapshot.rows()[0].properties());
    // An owned variant must be reconstructible from its inner value.
    let label = props
        .iter()
        .find(|(name, _)| name == "label")
        .and_then(|(_, v)| String::try_from(v.try_clone().ok()?).ok());
    assert_eq!(label.as_deref(), Some("open"));
    let enabled = props
        .iter()
        .find(|(name, _)| name == "enabled")
        .and_then(|(_, v)| bool::try_from(v.try_clone().ok()?).ok());
    assert_eq!(enabled, Some(true));
    assert_eq!(props.len(), snapshot.rows()[0].properties().len());
}

#[test]
fn numbers_and_bytes_become_variants_of_their_own_type() {
    let number = property_variant(&PropertyValue::Number(-7));
    assert_eq!(number.downcast_ref::<i32>().ok(), Some(-7));
    assert!(number.downcast_ref::<u8>().is_err());
    let hints = notification_hints(Some(2));
    assert_eq!(hints.len(), 1);
    assert_eq!(hints[0].0, "urgency");
    assert_eq!(hints[0].1.downcast_ref::<u8>().ok(), Some(2));
    assert!(notification_hints(None).is_empty());
}

#[test]
fn group_properties_filters_to_the_requested_names() {
    let snapshot = sample_snapshot();
    let all = snapshot.group_properties(&vec![1, 2], &Vec::new());
    assert_eq!(all.len(), 2);
    assert!(value(&all[0].1, "label").is_some());

    let only_type = snapshot.group_properties(&vec![1], &vec!["type".to_string()]);
    assert_eq!(only_type.len(), 1);
    assert_eq!(only_type[0].1.len(), 1, "only the requested key survives");
    assert!(value(&only_type[0].1, "type").is_some());

    // Unknown ids are skipped rather than reported as empty entries.
    let missing = snapshot.group_properties(&vec![9_999], &Vec::new());
    assert!(missing.is_empty());
}

#[test]
fn a_single_property_read_is_reported_absent_when_unknown() {
    let snapshot = sample_snapshot();
    assert_eq!(snapshot.property(1, "label"), Some(text("open")));
    assert!(snapshot.property(1, "no-such-property").is_none());
    assert!(snapshot.property(9_999, "label").is_none());
}

#[test]
fn a_snapshot_without_a_menu_is_none() {
    assert!(MenuSnapshot::from_menu(&MenuStore::new(), None).is_none());
}

#[test]
fn the_menu_path_matches_the_specification() {
    assert_eq!(SNI_PATH, "/StatusNotifierItem");
    assert_eq!(MENU_PATH, "/MenuBar");
}

#[test]
fn the_manager_does_not_touch_the_bus_until_created() {
    let manager = LinuxTrayManager::new();
    assert_eq!(manager.capabilities(), LinuxTrayManager::advertised_capabilities());
}

#[test]
fn a_created_icon_shows_what_was_registered() {
    let mut config = TrayIconConfig::new("player");
    config.tooltip = "t".repeat(200);
    config.icon = Some(TrayIconSource::Path("app.png".to_string()));
    let icon = match LinuxTrayManager::new().create(config) {
        Ok(icon) => icon,
        Err(error) => panic!("create failed: {}", error.message()),
    };
    assert_eq!(icon.name(), "player");
    assert_eq!(icon.tooltip().chars().count(), 127);
    assert_eq!(icon.capabilities(), LinuxTrayManager::advertised_capabilities());
    assert_eq!(
        icon.inner().state.icon,
        Some(TrayIconSource::Path("app.png".to_string()))
    );
}

#[test]
fn a_refresh_reports_each_change_once() {
    let mut item = StatusNotifierItemInterface::new(TrayShared::default());
    let mut host = TrayIconState::default();
    host.tooltip = "new".to_string();
    host.visible = false;
    let changes = item.refresh(Some(&host));
    assert!(changes.title && changes.status && !changes.icon && !changes.layout);
    assert_eq!(item.status(), "Passive");
    let again = item.refresh(Some(&host));
    assert!(!again.title && !again.status && !again.icon && !again.layout);
}

#[test]
fn item_properties_follow_the_mirror() {
    let mut item = StatusNotifierItemInterface::new(TrayShared::default());
    item.shared_mut().name = "player".to_string();
    assert_eq!(item.id(), "player");
    assert_eq!(item.category(), "ApplicationStatus");
    assert_eq!(item.status(), "Active");
    assert_eq!(item.window_id(), 0);
    assert!(!item.item_is_menu());
    assert_eq!(item.menu(), MENU_PATH);
    assert_eq!(item.icon_name(), "");
    assert!(item.icon_pixmap().is_empty());
    item.shared_mut().icon = IconPayload::from_source(&padded_rgba());
    assert_eq!(item.icon_name(), "");
    assert_eq!(item.icon_pixmap().len(), 1);
    item.shared_mut().icon = IconPayload::Name("app".to_string());
    assert_eq!(item.icon_name(), "app");
    assert!(item.icon_pixmap().is_empty());
    assert_eq!(item.tool_tip().0, "app");
}

#[test]
fn the_worker_tears_down_in_order() {
    let mut step = WorkerStep::Connect;
    let mut seen = Vec::new();
    for _ in 0..5 {
        seen.push(step);
        step = step.after(true);
    }
    assert_eq!(
        seen,
        vec![
            WorkerStep::Connect,
            WorkerStep::OwnName,
            WorkerStep::ExportItem,
            WorkerStep::ExportMenu,
            WorkerStep::Announce
        ]
    );
    assert_eq!(step, WorkerStep::Serve);
    assert_eq!(step.after(true), WorkerStep::Serve);
    step = step.after(false);
    assert_eq!(step, WorkerStep::RemoveItem);
    step = step.after(false);
    assert_eq!(step, WorkerStep::RemoveMenu);
    step = step.after(false);
    assert_eq!(step, WorkerStep::ReleaseName);
    assert_eq!(step.after(false), WorkerStep::Stopped);
    assert_eq!(WorkerStep::Announce.after(false), WorkerStep::Serve);
    assert_eq!(WorkerStep::OwnName.after(false), WorkerStep::Stopped);
}

#[test]
fn the_kde_watcher_is_tried_before_the_freedesktop_one() {
    assert_eq!(watcher_interface(0), Some(WATCHER_INTERFACE));
    assert_eq!(watcher_interface(1), Some(WATCHER_FALLBACK_INTERFACE));
    assert_eq!(watcher_interface(2), None);
    assert_eq!(watcher_service(0), Some("org.kde.StatusNotifierWatcher"));
    assert_eq!(watcher_service(1), Some("org.freedesktop.StatusNotifierWatcher"));
    assert_eq!(watcher_service(2), None);
    match no_watcher_error() {
        UdaError::NotSupported(reason) => assert_eq!(
            reason,
            "no StatusNotifierWatcher is reachable on the session bus"
        ),
        other => panic!("unexpected error {other:?}"),
    }
    assert_eq!(
        spawn_error("no threads").message(),
        "Internal error: could not spawn the tray worker: no threads"
    );
}

#[test]
fn the_menu_interface_answers_a_shell() {
    let (mut store, menu) = sample_menu();
    let id = store
        .menu(menu)
        .and_then(|contents| contents.find_by_label("open"))
        .map(|(id, _)| id)
        .expect("row exists");
    let mut actions = ActionStore::new();
    let action = TrayAction::new(&mut actions, 9);
    assert!(store
        .menu_mut(menu)
        .expect("live menu")
        .set_action(id, &mut actions, Some(action)));
    let mut interface = DBusMenuInterface::new();
    assert_eq!(interface.revision(), 0);
    assert_eq!(interface.bump_revision(), 1);

    let (revision, root) = interface.get_layout(&store, Some(menu), 0);
    assert_eq!(revision, 1);
    assert_eq!(root.children.len(), 5);
    let (_, empty) = interface.get_layout(&store, None, 0);
    assert!(empty.children.is_empty());

    assert_eq!(
        interface.event(&store, &actions, Some(menu), 1, "clicked"),
        Some(TrayCall {
            callback: 9,
            event: TrayEvent::Click
        })
    );
    assert_eq!(interface.event(&store, &actions, Some(menu), 1, "hovered"), None);
    assert_eq!(interface.event(&store, &actions, Some(menu), 99, "clicked"), None);
    let events = vec![
        (1, "hovered".to_string()),
        (1, "clicked".to_string()),
        (2, "clicked".to_string()),
    ];
    let click = TrayCall {
        callback: 9,
        event: TrayEvent::Click,
    };
    assert_eq!(
        interface.event_group(&store, &actions, Some(menu), &events, 0),
        Some((click, 2))
    );
    assert_eq!(
        interface.event_group(&store, &actions, Some(menu), &events, 2),
        None
    );
    assert_eq!(
        interface.event_group(&store, &actions, Some(menu), &events, 7),
        None
    );

    assert_eq!(
        interface.get_property(&store, Some(menu), 1, "label"),
        Ok(text("open"))
    );
    assert_eq!(
        interface.get_property(&store, Some(menu), 1, "nope"),
        Err("item 1 has no property 'nope'".to_string())
    );
    assert_eq!(
        interface.get_property(&store, Some(menu), 99, "label"),
        Err("unknown menu item id 99".to_string())
    );
    assert_eq!(
        interface.get_property(&store, None, 1, "label"),
        Err("no menu is attached; cannot read 'label'".to_string())
    );
    let groups = interface.get_group_properties(&store, Some(menu), &vec![6], &Vec::new());
    assert_eq!(groups.len(), 1);
    assert_eq!(value(&groups[0].1, "label"), Some(&text("inner")));
}

#[test]
fn a_top_down_image_keeps_its_row_order() {
    let pixels = transcode(&padded_rgba(), RowOrder::TopDown).expect("a valid icon");
    assert_eq!(&pixels[0..4], &[30, 20, 10, 255]);
    assert_eq!(&pixels[12..16], &[61, 51, 41, 255]);
}

#[test]
fn tray_a_menu_without_rows_still_encodes() {
    let mut store = MenuStore::new();
    let menu = store.add(TrayMenu::new());
    let snapshot =
        MenuSnapshot::from_menu(&store, Some(menu)).expect("an empty menu is a valid menu");
    assert!(snapshot.rows().is_empty());
    let root = snapshot.root_node(true);
    assert_eq!(root.children.len(), 0);
}

#[test]
fn a_layout_is_packed_level_by_level() {
    let snapshot = sample_snapshot();
    let wire = encode_layout(&snapshot.root_node(true));
    assert_eq!(wire.id, 0);
    assert!(wire.properties.is_empty());
    assert_eq!(wire.children.len(), 5);
    assert_eq!(wire.children[4].id, 5);
    // A structure without fields stands for the absent icon data.
    match &*wire.data {
        zvariant::Value::Structure(structure) => assert!(structure.fields().is_empty()),
        other => panic!("unexpected data {other:?}"),
    }
    // The submenu carries its own row as a list of structures.
    match &*wire.children[4].children {
        zvariant::Value::Array(nodes) => {
            assert_eq!(nodes.len(), 1);
            match nodes.get::<zvariant::Value>(0) {
                Ok(Some(zvariant::Value::Structure(node))) => {
                    assert_eq!(node.fields()[0], zvariant::Value::from(6i32));
                    match &node.fields()[1] {
                        zvariant::Value::Dict(properties) => {
                            let label: Result<Option<String>, _> = properties.get(&"label");
                            assert_eq!(label.ok().flatten().as_deref(), Some("inner"));
                        }
                        other => panic!("unexpected properties {other:?}"),
                    }
                }
                other => panic!("unexpected node {other:?}"),
            }
        }
        other => panic!("unexpected children {other:?}"),
    }
    // A plain row carries an empty list.
    match &*wire.children[0].children {
        zvariant::Value::Array(nodes) => assert!(nodes.is_empty()),
        other => panic!("unexpected children {other:?}"),
    }
}

#[test]
fn a_portal_answers_with_a_number_or_not_at_all() {
    let bare = zvariant::OwnedValue::from(2u32);
    assert_eq!(portal_answer(&bare), ProbeAnswer::Number(2));
    let nested = zvariant::Value::Value(Box::new(zvariant::Value::from(1u32)));
    let nested = nested.try_to_owned().expect("a number can be owned");
    assert_eq!(portal_answer(&nested), ProbeAnswer::Number(1));
    let signed = zvariant::OwnedValue::from(1i32);
    assert_eq!(portal_answer(&signed), ProbeAnswer::Silent);
}

#[test]
fn an_empty_submenu_is_still_a_submenu() {
    let mut store = MenuStore::new();
    let menu = store.add(TrayMenu::new());
    let child = store.add(TrayMenu::new());
    push(&mut store, menu, MenuItem::submenu("more", child));
    let snapshot = MenuSnapshot::from_menu(&store, Some(menu)).expect("a menu must snapshot");
    let props = snapshot.rows()[0].properties();
    assert_eq!(value(&props, "children-display"), Some(&text("submenu")));
}

#[test]
fn no_row_exposes_a_property_twice() {
    for row in sample_snapshot().rows() {
        let mut names: Vec<String> = row
            .properties()
            .into_iter()
            .map(|property| property.name)
            .collect();
        let before = names.len();
        names.sort();
        names.dedup();
        assert_eq!(names.len(), before);
    }
}

#[test]
fn a_refresh_keeps_the_handlers() {
    let mut config = TrayIconConfig::new("player");
    let mut actions = ActionStore::new();
    let on_click = TrayAction::new(&mut actions, 5);
    config.on_click = Some(on_click);
    let mut item = StatusNotifierItemInterface::new(TrayShared::registered(&config));
    let mut host = TrayIconState::default();
    host.tooltip = "other".to_string();
    item.refresh(Some(&host));
    assert_eq!(item.shared().on_click, Some(on_click));
    assert_eq!(item.dispatch_activation(&actions, 7).map(|call| call.callback), Some(5));
}

#[test]
fn changed_rows_are_announced_once() {
    let (mut store, menu) = sample_menu();
    let mut interface = DBusMenuInterface::new();
    assert!(!interface.is_stale(&store, None));
    assert!(interface.is_stale(&store, Some(menu)));
    assert_eq!(interface.announce(&store, Some(menu), false), Some(1));
    assert!(!interface.is_stale(&store, Some(menu)));
    assert_eq!(interface.announce(&store, Some(menu), false), None);

    let id = store
        .menu(menu)
        .and_then(|contents| contents.find_by_label("open"))
        .map(|(id, _)| id)
        .expect("row exists");
    let contents = store.menu_mut(menu).expect("live menu");
    assert!(contents.set_label(id, "open file"));
    assert_eq!(interface.announce(&store, Some(menu), false), Some(2));
    assert!(store.menu_mut(menu).expect("live menu").set_enabled(id, false));
    assert_eq!(interface.announce(&store, Some(menu), false), Some(3));
    push(&mut store, menu, MenuItem::text("late"));
    assert_eq!(interface.announce(&store, Some(menu), false), Some(4));

    // Another menu is announced even when its rows are the same.
    assert_eq!(interface.announce(&store, Some(menu), true), Some(5));
    assert_eq!(interface.announce(&store, None, true), Some(6));
    assert_eq!(interface.announce(&store, None, false), None);
    assert_eq!(interface.revision(), 6);
}

#[test]
fn a_change_inside_a_submenu_is_announced() {
    let mut store = MenuStore::new();
    let inner = store.add(TrayMenu::new());
    push(&mut store, inner, MenuItem::checkbox("pin"));
    let menu = store.add(TrayMenu::new());
    push(&mut store, menu, MenuItem::submenu("more", inner));
    let mut interface = DBusMenuInterface::new();
    assert_eq!(interface.announce(&store, Some(menu), false), Some(1));
    let id = store.menu(inner).expect("live menu").entries()[0].0;
    assert!(store.menu_mut(inner).expect("live menu").toggle(id));
    assert!(interface.is_stale(&store, Some(menu)));
    assert!(store.menu_mut(inner).expect("live menu").toggle(id));
    assert!(!interface.is_stale(&store, Some(menu)), "it is as announced again");
}

#[test]
fn a_batch_sees_what_its_own_calls_changed() {
    let mut actions = ActionStore::new();
    let first = TrayAction::new(&mut actions, 1);
    let second = TrayAction::new(&mut actions, 2);
    let mut store = MenuStore::new();
    let menu = store.add(TrayMenu::new());
    push(&mut store, menu, MenuItem::text_with_action("first", first));
    push(&mut store, menu, MenuItem::text_with_action("second", second));
    let interface = DBusMenuInterface::new();
    let events = vec![(1, "clicked".to_string()), (2, "clicked".to_string())];

    let (call, next) = interface
        .event_group(&store, &actions, Some(menu), &events, 0)
        .expect("the first row carries a callback");
    assert_eq!((call.callback, next), (1, 1));
    // Untouched, the second event leads to the second callback.
    assert_eq!(
        interface
            .event_group(&store, &actions, Some(menu), &events, next)
            .map(|(call, next)| (call.callback, next)),
        Some((2, 2))
    );
    // A first callback that removes the second row leaves nothing to call.
    let contents = store.menu_mut(menu).expect("live menu");
    let id = contents.find_by_label("second").expect("row exists").0;
    assert!(contents.remove(id));
    assert_eq!(
        interface.event_group(&store, &actions, Some(menu), &events, next),
        None
    );
}
