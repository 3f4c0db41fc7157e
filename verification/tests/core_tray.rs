use uda::capability::{Capability, SupportLevel};
use uda::error::UdaError;
use uda::tray::event::{ActionStore, TrayAction, TrayCall, TrayEvent};
use uda::tray::icon::{
    backend_support_level, feature_flag, TrayFeature, TrayIcon, TrayIconBuilder, TrayIconConfig,
    TrayIconInner,
};
use uda::tray::item::{MenuItem, MenuItemId, MenuItemState};
use uda::tray::menu::TrayMenu;
use uda::tray::source::{IconError, TrayIconSource};
use uda::tray::store::{MenuStore, TrayMenuHandle};
use uda::tray::tooltip::{
    sanitize_tooltip, tooltip_needs_truncation, truncate_chars, TOOLTIP_MAX_CHARS,
    TOOLTIP_TARGET_CHARS,
};

fn pushed(menu: &mut TrayMenu, item: MenuItem) -> MenuItemId {
    match menu.push(item) {
        Ok(id) => id,
        Err(error) => panic!("push failed: {}", error.message()),
    }
}

fn label_of(menu: &TrayMenu, id: MenuItemId) -> Option<String> {
    menu.find(id).and_then(|item| item.label().map(str::to_string))
}

#[test]
fn truncate_chars_never_splits_a_character() {
    // Three characters but six bytes; cutting at 2 must land on a boundary.
    let text = "a\u{00e9}\u{20ac}";
    assert_eq!(truncate_chars(text, 2), "a\u{00e9}");
    assert_eq!(truncate_chars(text, 3), text);
    assert_eq!(truncate_chars(text, 99), text);
    assert_eq!(truncate_chars("", 1), "");
}

#[test]
fn sanitize_tooltip_respects_the_hard_cap() {
    let long: String = "x".repeat(TOOLTIP_MAX_CHARS + 40);
    assert_eq!(sanitize_tooltip(&long).chars().count(), TOOLTIP_MAX_CHARS);
    assert!(tooltip_needs_truncation(&long));
    assert!(!tooltip_needs_truncation("short"));
}

#[test]
fn push_rejects_an_blank_label() {
    let mut menu = TrayMenu::new();
    match menu.push(MenuItem::text("   ")) {
        Err(UdaError::NotSupported(_)) => {}
        other => panic!("expected NotSupported, got {other:?}"),
    }
    assert!(menu.is_empty());
    // A separator has no label, so it must pass validation.
    assert!(menu.push(MenuItem::separator()).is_ok());
}

#[test]
fn ids_are_stable_across_inserts_and_removals() {
    let mut menu = TrayMenu::new();
    let first = pushed(&mut menu, MenuItem::text("first"));
    let second = pushed(&mut menu, MenuItem::text("second"));
    assert_ne!(first, second);

    // Inserting above must not shift the ids of existing rows.
    assert!(menu.insert(0, MenuItem::text("inserted")).is_ok());
    assert_eq!(menu.len(), 3);
    assert_eq!(label_of(&menu, first), Some("first".to_string()));
    assert_eq!(menu.find(second).expect("row survives").label(), Some("second"));

    assert!(menu.remove(first));
    assert!(!menu.remove(first));
    assert_eq!(menu.find(first), None);
    assert!(menu.find(second).is_some());
    assert_eq!(menu.len(), 2);
}

#[test]
fn clear_resets_rows_but_not_the_id_counter() {
    let mut menu = TrayMenu::new();
    let before = pushed(&mut menu, MenuItem::text("a"));
    menu.clear();
    assert!(menu.is_empty());
    let after = pushed(&mut menu, MenuItem::text("b"));
    // Reusing an id would make a stale handle alias the new row.
    assert_ne!(before, after);
}

#[test]
fn checkbox_semantics_are_enforced() {
    assert!(MenuItem::checkbox_checked("on").state().checked);
    assert!(!MenuItem::checkbox("off").state().checked);

    let mut menu = TrayMenu::new();
    let checkbox = pushed(&mut menu, MenuItem::checkbox("toggle"));
    assert!(menu.toggle(checkbox));
    assert!(menu.find(checkbox).expect("row survives").state().checked);

    let text = pushed(&mut menu, MenuItem::text("plain"));
    // Non-checkbox rows ignore checkbox operations instead of corrupting.
    assert!(!menu.toggle(text));
    assert!(!menu.set_checked(text, true));
    assert!(!menu.find(text).expect("row survives").state().checked);
}

#[test]
fn separators_are_never_activatable() {
    let item = MenuItem::separator();
    assert!(item.is_separator());
    assert!(item.is_disabled());
    assert_eq!(item.label(), None);
    assert_eq!(item.state(), MenuItemState::default().with_enabled(false));
}

#[test]
fn dynamic_updates_rewrite_labels_and_state() {
    let mut menu = TrayMenu::new();
    let id = pushed(&mut menu, MenuItem::text_disabled("off"));
    assert!(menu.set_enabled(id, true));
    assert!(!menu.find(id).expect("row survives").is_disabled());
    assert!(menu.set_label(id, "renamed"));
    assert_eq!(label_of(&menu, id), Some("renamed".to_string()));
    // Unknown ids are reported as no-ops rather than panicking.
    let unknown = MenuItemId::from_raw(999_999);
    assert!(!menu.set_label(unknown, "ghost"));
    assert!(!menu.set_enabled(unknown, false));
    assert!(!menu.toggle(unknown));
}

#[test]
fn menu_items_compare_without_touching_callbacks() {
    assert_eq!(MenuItem::text("same"), MenuItem::text("same"));
    assert_ne!(MenuItem::text("a"), MenuItem::text("b"));
    assert_ne!(MenuItem::text("a"), MenuItem::checkbox("a"));
    assert_eq!(MenuItem::separator(), MenuItem::separator());
    assert_ne!(MenuItem::text("a"), MenuItem::separator());
    let mut actions = ActionStore::new();
    assert_eq!(
        MenuItem::text_with_action("same", TrayAction::new(&mut actions, 1)),
        MenuItem::text_with_action("same", TrayAction::new(&mut actions, 2))
    );
}

#[test]
fn a_handle_survives_unrelated_mutation() {
    let mut store = MenuStore::new();
    let menu = store.add(TrayMenu::new());
    let id = pushed(store.menu_mut(menu).expect("live menu"), MenuItem::checkbox("watched"));
    let handle = TrayMenu::handle(&store, menu, id).expect("handle is created for a live row");
    // An insert above must not invalidate the handle.
    assert!(store
        .menu_mut(menu)
        .expect("live menu")
        .insert(0, MenuItem::text("above"))
        .is_ok());
    assert!(handle.set_checked(&mut store, true));
    let contents = store.menu(menu).expect("live menu");
    assert!(contents.find(id).expect("row survives").state().checked);

    let missing = TrayMenu::handle(&store, menu, MenuItemId::from_raw(4_042));
    assert!(missing.is_none());
}

#[test]
fn the_builder_collects_rows_in_order() {
    let mut actions = ActionStore::new();
    let on_quit = TrayAction::new(&mut actions, 41);
    let built = TrayMenu::builder()
        .text("open")
        .and_then(|builder| builder.separator())
        .and_then(|builder| builder.checkbox_checked("pin"))
        .and_then(|builder| builder.text_with_action("quit", on_quit))
        .map(|builder| builder.build());
    let menu = match built {
        Ok(menu) => menu,
        Err(error) => panic!("builder failed: {}", error.message()),
    };
    let labels: Vec<String> = menu
        .items()
        .iter()
        .map(|item| item.label().unwrap_or("|").to_string())
        .collect();
    assert_eq!(
        labels,
        vec![
            "open".to_string(),
            "|".to_string(),
            "pin".to_string(),
            "quit".to_string()
        ]
    );

    // The action compiled into the menu is invocable.
    let quit = menu
        .find_by_label("quit")
        .map(|(id, _)| id)
        .expect("row exists");
    let call = match menu.find(quit) {
        Some(MenuItem::Text {
            action: Some(action),
            ..
        }) => action.invoke(&actions, &TrayEvent::Click),
        other => panic!("expected a text row carrying an action, got {other:?}"),
    };
    assert_eq!(
        call,
        TrayCall {
            callback: 41,
            event: TrayEvent::Click
        }
    );
}

#[test]
fn nested_submenus_keep_their_children() {
    let mut store = MenuStore::new();
    let child = store.add(TrayMenu::new());
    pushed(store.menu_mut(child).expect("live menu"), MenuItem::text("inner"));
    let mut menu = TrayMenu::new();
    let parent = pushed(&mut menu, MenuItem::submenu("outer", child));
    match menu.find(parent) {
        // The row names the same menu the host holds, so mutating the child
        // afterwards is visible through the submenu.
        Some(MenuItem::Submenu { children, .. }) => {
            assert_eq!(children, child);
            assert_eq!(store.menu(children).expect("live menu").len(), 1);
        }
        other => panic!("expected a submenu, got {other:?}"),
    }
}

#[test]
fn rgba_icons_are_validated_before_reaching_the_backend() {
    assert_eq!(
        TrayIconSource::Rgba {
            width: 2,
            height: 2,
            stride: 8,
            data: vec![0; 16],
        }
        .validate(),
        Ok(())
    );
    assert_eq!(
        TrayIconSource::Rgba {
            width: 0,
            height: 2,
            stride: 0,
            data: Vec::new(),
        }
        .validate(),
        Err(IconError::EmptyDimensions)
    );
    assert_eq!(
        TrayIconSource::Rgba {
            width: 2,
            height: 2,
            stride: 7,
            data: vec![0; 14],
        }
        .validate(),
        Err(IconError::StrideTooSmall)
    );
    assert_eq!(
        TrayIconSource::Rgba {
            width: 2,
            height: 2,
            stride: 8,
            data: vec![0; 15],
        }
        .validate(),
        Err(IconError::DataTooShort)
    );
    // Saturating dimensions must be rejected by the checked arithmetic, not
    // wrap into a small buffer and pass.
    assert_eq!(
        TrayIconSource::Rgba {
            width: u32::MAX,
            height: u32::MAX,
            stride: u32::MAX,
            data: vec![0; 4],
        }
        .validate(),
        Err(IconError::StrideTooSmall)
    );
    // A stride that fits in `u32` but whose `stride * height` overflows.
    assert_eq!(
        TrayIconSource::Rgba {
            width: 4,
            height: u32::MAX,
            stride: 0x8000_0000,
            data: vec![0; 4],
        }
        .validate(),
        Err(IconError::DataTooShort)
    );
    assert_eq!(
        TrayIconSource::Path("   ".to_string()).validate(),
        Err(IconError::EmptyPath)
    );
    assert_eq!(
        TrayIconSource::Path("app.png".to_string()).validate(),
        Ok(())
    );
}

#[test]
fn a_valid_icon_is_applied_and_an_invalid_one_is_kept_out() {
    let mut icon = TrayIcon::from_inner(TrayIconInner::new("test".to_string()));
    let good = TrayIconSource::Path("good.png".to_string());
    assert!(icon.set_icon(good).is_ok());

    let bad = TrayIconSource::Path(String::new());
    match icon.set_icon(bad) {
        Err(UdaError::NotSupported(reason)) => {
            assert_eq!(reason, "invalid tray icon: icon path must not be empty");
        }
        other => panic!("expected NotSupported, got {other:?}"),
    }
    // The previous icon must survive a rejected update.
    let kept = icon.inner().state.icon.clone();
    assert_eq!(kept, Some(TrayIconSource::Path("good.png".to_string())));
}

#[test]
fn tooltip_updates_are_clamped_and_readable() {
    let mut icon = TrayIcon::from_inner(TrayIconInner::new("test".to_string()));
    icon.set_tooltip("hi");
    assert_eq!(icon.tooltip(), "hi");
    let long: String = "y".repeat(TOOLTIP_MAX_CHARS * 2);
    icon.set_tooltip(&long);
    assert_eq!(icon.tooltip().chars().count(), TOOLTIP_MAX_CHARS);
}

#[test]
fn menu_and_visibility_round_trip() {
    let mut store = MenuStore::new();
    let mut icon = TrayIcon::from_inner(TrayIconInner::new("test".to_string()));
    assert!(icon.is_visible());
    let menu = store.add(TrayMenu::new());
    icon.set_menu(menu);
    assert_eq!(icon.menu(), Some(menu));
    icon.clear_menu();
    assert_eq!(icon.menu(), None);
    icon.hide_icon();
    assert!(!icon.is_visible());
    icon.show();
    assert!(icon.is_visible());
    assert_eq!(store.menu(menu).expect("live menu").len(), 0);
}

#[test]
fn capabilities_stay_empty_until_a_backend_publishes() {
    let mut icon = TrayIcon::from_inner(TrayIconInner::new("test".to_string()));
    // Nothing published yet: the honest answer is "no tray".
    assert_eq!(icon.capabilities(), Capability::empty());
    assert_eq!(icon.support_level(TrayFeature::Icon), SupportLevel::Unsupported);
    assert_eq!(icon.support_level(TrayFeature::DoubleClick), SupportLevel::Unsupported);

    icon.inner_mut().set_capabilities(Capability::of(Capability::SYSTEM_TRAY));
    assert_eq!(icon.capabilities(), Capability::of(Capability::SYSTEM_TRAY));
    assert_eq!(icon.support_level(TrayFeature::Icon), SupportLevel::Full);
    // Unclaimed features are unsupported, never an optimistic `Partial`.
    assert_eq!(icon.support_level(TrayFeature::DoubleClick), SupportLevel::Unsupported);
}

#[test]
fn feature_display_names_are_stable() {
    assert_eq!(TrayFeature::Icon.text(), "tray icon");
    assert_eq!(TrayFeature::DoubleClick.text(), "tray double-click event");
    assert_eq!(MenuItemId::from_raw(7).text(), "tray-item-7");
}

#[test]
fn dropping_an_icon_marks_it_shut_down_once() {
    let mut icon = TrayIcon::from_inner(TrayIconInner::new("test".to_string()));
    assert!(!icon.inner().state.shutdown);
    assert!(icon.shut_down());
    assert!(icon.inner().state.shutdown);
    // A second request observes the flag already set, which is what keeps
    // unregistration idempotent under races.
    assert!(!icon.shut_down());
    assert!(icon.inner().state.shutdown);
}

#[test]
fn tray_handles_are_send_and_sync() {
    fn assert_send_sync<T: Send + Sync>() {}
    assert_send_sync::<TrayIcon>();
    assert_send_sync::<TrayMenu>();
    assert_send_sync::<TrayMenuHandle>();
    assert_send_sync::<MenuItem>();

    fn assert_send<T: Send>() {}
    assert_send::<TrayIconConfig>();
    assert_send::<TrayAction>();
}

#[test]
fn an_over_long_tooltip_is_reported_as_partial() {
    let mut icon = TrayIcon::from_inner(TrayIconInner::new("test".to_string()));
    icon.inner_mut().set_capabilities(Capability::of(Capability::SYSTEM_TRAY));
    assert_eq!(icon.support_level(TrayFeature::Tooltip), SupportLevel::Full);
    icon.set_tooltip(&"x".repeat(TOOLTIP_TARGET_CHARS));
    assert_eq!(icon.support_level(TrayFeature::Tooltip), SupportLevel::Full);
    icon.set_tooltip(&"x".repeat(TOOLTIP_TARGET_CHARS + 1));
    assert_eq!(icon.support_level(TrayFeature::Tooltip), SupportLevel::Partial);
}

#[test]
fn a_feature_maps_onto_its_own_flag() {
    let features = [
        TrayFeature::Icon,
        TrayFeature::Tooltip,
        TrayFeature::Click,
        TrayFeature::DoubleClick,
        TrayFeature::ContextMenu,
        TrayFeature::Checkbox,
        TrayFeature::DynamicMenu,
    ];
    for (index, feature) in features.iter().enumerate() {
        let flag = feature_flag(*feature);
        assert_eq!(flag.count_ones(), 1);
        for other in &features[index + 1..] {
            assert_ne!(flag, feature_flag(*other));
        }
        let backend = Capability::of(Capability::SYSTEM_TRAY).with(flag);
        assert_eq!(backend_support_level(backend, *feature), SupportLevel::Full);
        assert_eq!(
            backend_support_level(Capability::of(flag), *feature),
            SupportLevel::Unsupported
        );
    }
    assert_eq!(TrayFeature::Tooltip.text(), "tray tooltip");
    assert_eq!(TrayFeature::Click.text(), "tray click event");
    assert_eq!(TrayFeature::ContextMenu.text(), "tray context menu");
    assert_eq!(TrayFeature::Checkbox.text(), "tray checkbox items");
    assert_eq!(TrayFeature::DynamicMenu.text(), "tray menu updates");
}

#[test]
fn the_icon_builder_packages_what_it_was_given() {
    let mut store = MenuStore::new();
    let menu = store.add(TrayMenu::new());
    let mut actions = ActionStore::new();
    let click = TrayAction::new(&mut actions, 1);
    let double_click = TrayAction::new(&mut actions, 2);
    let config = TrayIconBuilder::new()
        .name("player")
        .icon_path("app.png")
        .tooltip("playing")
        .menu(menu)
        .on_click(click)
        .on_double_click(double_click)
        .build();
    assert_eq!(config.name, "player");
    assert_eq!(config.icon, Some(TrayIconSource::Path("app.png".to_string())));
    assert_eq!(config.tooltip, "playing");
    assert_eq!(config.menu, Some(menu));
    assert_eq!(config.on_click, Some(click));
    assert_eq!(config.on_double_click, Some(double_click));

    let unnamed = TrayIconBuilder::new().icon_rgba(1, 1, 4, vec![1, 2, 3, 4]).build();
    assert_eq!(unnamed.name, uda::DEFAULT_APP_NAME);
    assert_eq!(
        unnamed.icon,
        Some(TrayIconSource::Rgba {
            width: 1,
            height: 1,
            stride: 4,
            data: vec![1, 2, 3, 4]
        })
    );
    assert_eq!(TrayIconConfig::default().name, "UDA");
}

#[test]
fn icon_errors_say_what_is_wrong() {
    assert_eq!(
        IconError::EmptyDimensions.message(),
        "icon width and height must both be non-zero"
    );
    assert_eq!(
        IconError::StrideTooSmall.message(),
        "icon stride must be at least width * 4"
    );
    assert_eq!(
        IconError::DataTooShort.message(),
        "icon data is shorter than stride * height"
    );
    assert_eq!(IconError::EmptyPath.message(), "icon path must not be empty");
}

#[test]
fn toggling_changes_checkboxes_only() {
    let text = MenuItem::text("plain").with_state(MenuItemState {
        enabled: true,
        checked: true,
    });
    assert!(text.toggled().state().checked);
    assert!(MenuItem::checkbox("box").toggled().state().checked);
    assert!(!MenuItem::checkbox("box").toggled().toggled().state().checked);
}

#[test]
fn a_change_through_one_reference_is_seen_through_the_other() {
    let mut store = MenuStore::new();
    let first = store.add(TrayMenu::new());
    let second = store.add(TrayMenu::new());
    let same = first;
    pushed(store.menu_mut(first).expect("live menu"), MenuItem::text("shared"));
    assert_eq!(store.menu(same).expect("live menu").len(), 1);
    assert_eq!(store.menu(second).expect("live menu").len(), 0);
}

#[test]
fn a_menu_that_contains_itself_does_not_nest() {
    let mut store = MenuStore::new();
    let outer = store.add(TrayMenu::new());
    let inner = store.add(TrayMenu::new());
    pushed(store.menu_mut(outer).expect("live menu"), MenuItem::submenu("in", inner));
    assert!(store.nests(outer));
    assert!(store.nests(inner));
    pushed(store.menu_mut(inner).expect("live menu"), MenuItem::submenu("out", outer));
    assert!(!store.nests(outer));
    assert!(!store.nests(inner));
}

#[test]
fn a_handle_edits_its_row_and_nothing_else() {
    let mut store = MenuStore::new();
    let menu = store.add(TrayMenu::new());
    let row = pushed(store.menu_mut(menu).expect("live menu"), MenuItem::text("row"));
    let other = pushed(store.menu_mut(menu).expect("live menu"), MenuItem::text("other"));
    let handle = TrayMenu::handle(&store, menu, row).expect("live row");
    assert_eq!(handle.id(), row);
    assert!(handle.set_label(&mut store, "renamed"));
    assert!(handle.set_enabled(&mut store, false));
    let mut actions = ActionStore::new();
    let action = TrayAction::new(&mut actions, 5);
    assert!(handle.set_action(&mut store, &mut actions, Some(action)));
    assert!(!handle.toggle(&mut store), "a text row is no checkbox");
    let item = handle.item(&store).expect("live row");
    assert_eq!(item.label(), Some("renamed"));
    assert!(item.is_disabled());
    assert_eq!(item.action(), Some(&action));
    assert_eq!(
        store.menu(menu).expect("live menu").find(other),
        Some(MenuItem::text("other"))
    );
    assert!(handle.remove(&mut store));
    assert!(!handle.remove(&mut store));
    assert!(handle.item(&store).is_none());
    assert_eq!(store.menu(menu).expect("live menu").len(), 1);
}

#[test]
fn a_row_can_lose_its_callback() {
    let mut actions = ActionStore::new();
    let row = MenuItem::text_with_action("quit", TrayAction::new(&mut actions, 4));
    assert!(row.action().is_some());
    let row = row.without_action();
    assert!(row.action().is_none());
    assert_eq!(row.label(), Some("quit"));
    assert!(!row.is_submenu());
    let mut store = MenuStore::new();
    let children = store.add(TrayMenu::new());
    assert!(MenuItem::submenu("more", children).is_submenu());
}

#[test]
fn a_backend_reaches_the_state_behind_an_icon() {
    let mut icon = TrayIcon::from_inner(TrayIconInner::new("player".to_string()));
    icon.inner_mut().lock_state().tooltip = "seeded".to_string();
    assert_eq!(icon.tooltip(), "seeded");
    assert_eq!(icon.name(), "player");
}

#[test]
fn a_replaced_callback_reaches_every_holder() {
    let click = |callback: u64| TrayCall {
        callback,
        event: TrayEvent::Click,
    };
    let mut actions = ActionStore::new();
    let first = TrayAction::new(&mut actions, 10);
    let other = TrayAction::new(&mut actions, 20);
    let mut store = MenuStore::new();
    let menu = store.add(TrayMenu::new());
    let id = pushed(
        store.menu_mut(menu).expect("live menu"),
        MenuItem::text_with_action("x", first),
    );
    let snap = store.menu(menu).expect("live menu").find(id).expect("live row");
    let handle = TrayMenu::handle(&store, menu, id).expect("live row");

    let replacement = TrayAction::new(&mut actions, 30);
    assert!(handle.set_action(&mut store, &mut actions, Some(replacement)));

    // The row and the copy taken before both call the new callback.
    let row = handle.item(&store).expect("live row");
    let now = row.action().expect("the row carries a callback");
    assert_eq!(now.invoke(&actions, &TrayEvent::Click), click(30));
    let held = snap.action().expect("the copy carries a callback");
    assert_eq!(held.invoke(&actions, &TrayEvent::Click), click(30));
    assert_eq!(first.invoke(&actions, &TrayEvent::Click), click(30));
    // Another callback is left alone.
    assert_eq!(other.invoke(&actions, &TrayEvent::Click), click(20));

    // Replacing it again still reaches the first holder.
    assert!(handle.set_action(&mut store, &mut actions, Some(other)));
    assert_eq!(held.invoke(&actions, &TrayEvent::Click), click(20));

    // A row loses its callback without taking it from the copies.
    assert!(handle.set_action(&mut store, &mut actions, None));
    assert!(handle.item(&store).expect("live row").action().is_none());
    assert_eq!(held.invoke(&actions, &TrayEvent::Click), click(20));
    assert!(handle.remove(&mut store));
    assert!(!handle.set_action(&mut store, &mut actions, Some(other)));
}

#[test]
fn an_action_of_another_store_is_not_called() {
    let mut actions = ActionStore::new();
    let action = TrayAction::new(&mut actions, 1);
    assert!(actions.knows(action));
    assert!(actions.call(Some(action), TrayEvent::DoubleClick).is_some());
    assert_eq!(actions.call(None, TrayEvent::Click), None);
    let empty = ActionStore::new();
    assert!(!empty.knows(action));
    assert_eq!(empty.call(Some(action), TrayEvent::Click), None);
}

#[test]
fn submenus_and_separators_take_no_callback() {
    let mut actions = ActionStore::new();
    let action = TrayAction::new(&mut actions, 1);
    let mut menu = TrayMenu::new();
    let line = pushed(&mut menu, MenuItem::separator());
    assert!(menu.set_action(line, &mut actions, Some(action)));
    assert!(menu.find(line).expect("live row").action().is_none());
}
