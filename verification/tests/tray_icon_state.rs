use tray_icon::click::{tray_click_action, ClickAction};
use tray_icon::model::{ClickType, PlatformOp, TrayIconAttributes, TrayIconId};
use tray_icon::tray::TrayIcon;

fn attrs() -> TrayIconAttributes<&'static str, &'static str> {
    TrayIconAttributes {
        tooltip: Some("tip".to_string()),
        title: None,
        icon: Some("icon"),
        icon_is_template: true,
        menu: Some("menu"),
        menu_on_left_click: true,
    }
}

fn visible_icon() -> TrayIcon<u64, &'static str, &'static str> {
    TrayIcon::new(TrayIconId("tray-1".to_string()), attrs(), 10, 20)
}

#[test]
fn new_icon_is_visible_and_keeps_its_attributes() {
    let tray = visible_icon();
    assert!(tray.is_visible());
    assert_eq!(tray.id().0, "tray-1");
    assert_eq!(tray.attrs().tooltip.as_deref(), Some("tip"));
    assert_eq!(tray.attrs().icon, Some("icon"));
    assert!(tray.attrs().icon_is_template);
    assert!(tray.attrs().menu_on_left_click);
}

#[test]
fn set_icon_on_visible_icon_shows_it_not_as_template() {
    let mut tray = visible_icon();
    let ops = tray.set_icon(Some("other"));
    assert_eq!(ops.len(), 2);
    assert!(matches!(ops[0], PlatformOp::SetButtonImage { status_item: 10, is_template: false }));
    assert!(matches!(ops[1], PlatformOp::UpdateDimensions { target: 20 }));
    assert_eq!(tray.attrs().icon, Some("other"));
}

#[test]
fn set_tooltip_and_title_refresh_a_visible_icon() {
    let mut tray = visible_icon();
    let ops = tray.set_tooltip(Some("new tip".to_string()));
    assert_eq!(ops.len(), 2);
    assert!(matches!(ops[0], PlatformOp::SetTooltip { status_item: 10 }));
    assert!(matches!(ops[1], PlatformOp::UpdateDimensions { target: 20 }));
    assert_eq!(tray.attrs().tooltip.as_deref(), Some("new tip"));

    let ops = tray.set_title(Some("Title".to_string()));
    assert_eq!(ops.len(), 2);
    assert!(matches!(ops[0], PlatformOp::SetTitle { status_item: 10 }));
    assert!(matches!(ops[1], PlatformOp::UpdateDimensions { target: 20 }));
    assert_eq!(tray.attrs().title.as_deref(), Some("Title"));

    let ops = tray.set_tooltip(None);
    assert_eq!(ops.len(), 2);
    assert_eq!(tray.attrs().tooltip, None);
}

#[test]
fn set_menu_hands_the_menu_to_both_objects() {
    let mut tray = visible_icon();
    let ops = tray.set_menu(None);
    assert_eq!(ops.len(), 1);
    assert!(matches!(ops[0], PlatformOp::SetMenu { status_item: 10, target: 20 }));
    assert_eq!(tray.attrs().menu, None);
}

#[test]
fn template_flag_and_left_click_flag_reach_their_objects() {
    let mut tray = visible_icon();
    let ops = tray.set_icon_as_template(false);
    assert_eq!(ops.len(), 1);
    assert!(matches!(ops[0], PlatformOp::SetImageTemplate { status_item: 10, is_template: false }));
    assert!(!tray.attrs().icon_is_template);

    let ops = tray.set_show_menu_on_left_click(false);
    assert_eq!(ops.len(), 1);
    assert!(matches!(ops[0], PlatformOp::SetMenuOnLeftClick { target: 20, enable: false }));
    assert!(!tray.attrs().menu_on_left_click);
}

#[test]
fn hidden_icon_stores_changes_and_asks_nothing() {
    let mut tray = visible_icon();
    let ops = tray.set_visible(false);
    assert_eq!(ops.len(), 1);
    assert!(!tray.is_visible());
    assert!(tray.set_icon(None).is_empty());
    assert!(tray.set_menu(Some("m2")).is_empty());
    assert!(tray.set_tooltip(Some("t2".to_string())).is_empty());
    assert!(tray.set_title(Some("x".to_string())).is_empty());
    assert!(tray.set_icon_as_template(false).is_empty());
    assert!(tray.set_show_menu_on_left_click(false).is_empty());
    assert_eq!(tray.attrs().icon, None);
    assert_eq!(tray.attrs().menu, Some("m2"));
    assert_eq!(tray.attrs().tooltip.as_deref(), Some("t2"));
    assert_eq!(tray.attrs().title.as_deref(), Some("x"));
    assert!(!tray.attrs().icon_is_template);
    assert!(!tray.attrs().menu_on_left_click);
}

#[test]
fn hide_then_show_releases_and_recreates() {
    let mut tray = visible_icon();
    let ops = tray.set_visible(false);
    assert_eq!(ops.len(), 1);
    assert!(matches!(ops[0], PlatformOp::Remove { status_item: 10, target: 20 }));
    assert!(!tray.is_visible());

    let ops = tray.set_visible(true);
    assert_eq!(ops.len(), 1);
    assert!(matches!(ops[0], PlatformOp::Create));
    assert!(!tray.is_visible());

    tray.attach(30, 40);
    assert!(tray.is_visible());
    assert_eq!(tray.attrs().tooltip.as_deref(), Some("tip"));
    assert_eq!(tray.id().0, "tray-1");
    let ops = tray.set_title(None);
    assert!(matches!(ops[0], PlatformOp::SetTitle { status_item: 30 }));
    assert!(matches!(ops[1], PlatformOp::UpdateDimensions { target: 40 }));
}

#[test]
fn set_visible_twice_acts_once() {
    let mut tray = visible_icon();
    assert!(tray.set_visible(true).is_empty());
    assert_eq!(tray.set_visible(false).len(), 1);
    assert!(tray.set_visible(false).is_empty());
    assert!(tray.remove().is_empty());
    assert!(!tray.is_visible());
}

#[test]
fn remove_releases_both_objects() {
    let mut tray = visible_icon();
    let ops = tray.remove();
    assert_eq!(ops.len(), 1);
    assert!(matches!(ops[0], PlatformOp::Remove { status_item: 10, target: 20 }));
    assert!(!tray.is_visible());
}

#[test]
fn dark_mode_asks_the_status_item_only_when_visible() {
    let mut tray = visible_icon();
    assert!(tray.is_dark_mode(|h| h == 10));
    assert!(!tray.is_dark_mode(|_| false));
    tray.set_visible(false);
    assert!(!tray.is_dark_mode(|_| panic!("a hidden icon has no appearance")));
}

#[test]
fn right_click_opens_a_menu_with_items() {
    assert_eq!(tray_click_action(ClickType::Right, false, Some(2)), ClickAction::OpenMenu);
    assert_eq!(tray_click_action(ClickType::Right, true, Some(1)), ClickAction::OpenMenu);
}

#[test]
fn click_without_menu_items_highlights() {
    assert_eq!(tray_click_action(ClickType::Right, false, None), ClickAction::Highlight);
    assert_eq!(tray_click_action(ClickType::Right, false, Some(0)), ClickAction::Highlight);
    assert_eq!(tray_click_action(ClickType::Left, true, Some(0)), ClickAction::Highlight);
    assert_eq!(tray_click_action(ClickType::Left, true, None), ClickAction::Highlight);
}

#[test]
fn left_click_opens_the_menu_only_when_enabled() {
    assert_eq!(tray_click_action(ClickType::Left, true, Some(3)), ClickAction::OpenMenu);
    assert_eq!(tray_click_action(ClickType::Left, false, Some(3)), ClickAction::Highlight);
}
