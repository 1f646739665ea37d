//! What a mouse-down on the tray icon does.

use vstd::prelude::*;

use crate::model::ClickType;

verus! {

/// The response of the icon's button to a mouse-down.
#[derive(PartialEq, Eq, Structural, Clone, Copy, Debug)]
pub enum ClickAction {
    /// Click the status item's button, which opens its menu.
    OpenMenu,
    /// Only highlight the button.
    Highlight,
}

/// A right click asks for the menu; so does a left click when the icon was
/// told to show its menu on left clicks.
pub open spec fn click_asks_for_menu(click_type: ClickType, menu_on_left_click: bool) -> bool {
    click_type == ClickType::Right || (menu_on_left_click && click_type == ClickType::Left)
}

/// There is a menu and it has at least one item.
pub open spec fn menu_has_items(menu_item_count: Option<isize>) -> bool {
    match menu_item_count {
        Some(n) => n > 0,
        None => false,
    }
}

/// Decides the response to a mouse-down of kind `click_type`;
/// `menu_item_count` is the number of items in the icon's menu, `None` when it
/// has no menu. The menu opens exactly when the click asks for it and the menu
/// has items; otherwise the button is highlighted.
pub fn tray_click_action(
    click_type: ClickType,
    menu_on_left_click: bool,
    menu_item_count: Option<isize>,
) -> (action: ClickAction)
    ensures
        action == (if click_asks_for_menu(click_type, menu_on_left_click) && menu_has_items(
            menu_item_count,
        ) {
            ClickAction::OpenMenu
        } else {
            ClickAction::Highlight
        }),
        action == ClickAction::OpenMenu <==> ((click_type == ClickType::Right || (
        menu_on_left_click && click_type == ClickType::Left)) && menu_item_count is Some
            && menu_item_count->0 > 0),
        action == ClickAction::OpenMenu || action == ClickAction::Highlight,
{
    if click_type == ClickType::Right || (menu_on_left_click && click_type == ClickType::Left) {
        let has_items = match menu_item_count {
            Some(n) => n > 0,
            None => false,
        };
        if has_items {
            ClickAction::OpenMenu
        } else {
            ClickAction::Highlight
        }
    } else {
        ClickAction::Highlight
    }
}

/// A right click opens a menu that has at least one item, and so does a left
/// click when left clicks are set to open the menu; a missing or empty menu
/// never opens, and a left click never opens it when left clicks are not set
/// to.
pub proof fn lemma_click_opens_menu(click_type: ClickType, menu_on_left_click: bool, n: isize)
    ensures
        n > 0 ==> click_asks_for_menu(ClickType::Right, menu_on_left_click) && menu_has_items(Some(n)),
        n > 0 ==> click_asks_for_menu(ClickType::Left, true) && menu_has_items(Some(n)),
        n <= 0 ==> !menu_has_items(Some(n)),
        !menu_has_items(None),
        !click_asks_for_menu(ClickType::Left, false),
        menu_has_items(Some(n)) <==> n > 0,
        click_asks_for_menu(click_type, menu_on_left_click) <==> (click_type == ClickType::Right || (
        menu_on_left_click && click_type == ClickType::Left)),
{
}

} // verus!
