//! Properties of the tray icon that span its operations.

use vstd::prelude::*;

use crate::model::{AttrsModel, PlatformOp, TrayIconModel};

verus! {

/// Every change keeps the status item and its click target together: both
/// exist or neither does. Attaching to a hidden icon gives it both.
pub proof fn lemma_changes_keep_wf<H, I, M>(
    m: TrayIconModel<H, I, M>,
    icon: Option<I>,
    menu: Option<M>,
    tooltip: Option<Seq<char>>,
    title: Option<Seq<char>>,
    flag: bool,
    status_item: H,
    target: H,
)
    requires
        m.wf(),
    ensures
        m.set_icon(icon).0.wf(),
        m.set_menu(menu).0.wf(),
        m.set_tooltip(tooltip).0.wf(),
        m.set_title(title).0.wf(),
        m.set_icon_as_template(flag).0.wf(),
        m.set_show_menu_on_left_click(flag).0.wf(),
        m.set_visible(flag).0.wf(),
        m.remove().0.wf(),
        m.attach(status_item, target).wf(),
{
}

/// Setting an attribute stores exactly that value, visible or not, and leaves
/// the other attributes, the id and the platform objects as they were.
pub proof fn lemma_set_then_read<H, I, M>(
    m: TrayIconModel<H, I, M>,
    icon: Option<I>,
    menu: Option<M>,
    tooltip: Option<Seq<char>>,
    title: Option<Seq<char>>,
    flag: bool,
)
    ensures
        m.set_icon(icon).0 == m.with_attrs(AttrsModel { icon, ..m.attrs }),
        m.set_menu(menu).0 == m.with_attrs(AttrsModel { menu, ..m.attrs }),
        m.set_tooltip(tooltip).0 == m.with_attrs(AttrsModel { tooltip, ..m.attrs }),
        m.set_title(title).0 == m.with_attrs(AttrsModel { title, ..m.attrs }),
        m.set_icon_as_template(flag).0 == m.with_attrs(
            AttrsModel { icon_is_template: flag, ..m.attrs },
        ),
        m.set_show_menu_on_left_click(flag).0 == m.with_attrs(
            AttrsModel { menu_on_left_click: flag, ..m.attrs },
        ),
        m.set_icon(icon).0.attrs.icon == icon,
        m.set_menu(menu).0.attrs.menu == menu,
        m.set_tooltip(tooltip).0.attrs.tooltip == tooltip,
        m.set_title(title).0.attrs.title == title,
        m.set_icon_as_template(flag).0.attrs.icon_is_template == flag,
        m.set_show_menu_on_left_click(flag).0.attrs.menu_on_left_click == flag,
{
}

/// A hidden icon asks the platform for nothing when its attributes change or
/// when it is hidden again.
pub proof fn lemma_hidden_icon_asks_nothing<H, I, M>(
    m: TrayIconModel<H, I, M>,
    icon: Option<I>,
    menu: Option<M>,
    tooltip: Option<Seq<char>>,
    title: Option<Seq<char>>,
    flag: bool,
)
    requires
        m.wf(),
        !m.is_visible(),
    ensures
        m.set_icon(icon).1 == Seq::<PlatformOp<H>>::empty(),
        m.set_menu(menu).1 == Seq::<PlatformOp<H>>::empty(),
        m.set_tooltip(tooltip).1 == Seq::<PlatformOp<H>>::empty(),
        m.set_title(title).1 == Seq::<PlatformOp<H>>::empty(),
        m.set_icon_as_template(flag).1 == Seq::<PlatformOp<H>>::empty(),
        m.set_show_menu_on_left_click(flag).1 == Seq::<PlatformOp<H>>::empty(),
        m.set_visible(false).1 == Seq::<PlatformOp<H>>::empty(),
{
}

/// Asking twice for the same visibility acts once: hiding a hidden icon and
/// showing an icon that is on the status bar ask for nothing.
pub proof fn lemma_set_visible_idempotent<H, I, M>(m: TrayIconModel<H, I, M>, status_item: H, target: H)
    ensures
        m.set_visible(false).0.set_visible(false).1 == Seq::<PlatformOp<H>>::empty(),
        m.set_visible(false).0.set_visible(false).0 == m.set_visible(false).0,
        m.is_visible() ==> m.set_visible(true).1 == Seq::<PlatformOp<H>>::empty(),
        m.set_visible(true).0.attach(status_item, target).set_visible(true).1 == Seq::<
            PlatformOp<H>,
        >::empty(),
{
}

/// Hiding a visible icon releases exactly the objects it held; showing it
/// again asks for new ones, and once they are attached the icon is visible
/// with the id and attributes it had before.
pub proof fn lemma_hide_then_show<H, I, M>(m: TrayIconModel<H, I, M>, status_item: H, target: H)
    requires
        m.wf(),
        m.is_visible(),
    ensures
        m.set_visible(false).1 == seq![
            PlatformOp::Remove { status_item: m.status_item->0, target: m.target->0 },
        ],
        !m.set_visible(false).0.is_visible(),
        m.set_visible(false).0.set_visible(true).1 == seq![PlatformOp::<H>::Create],
        ({
            let shown = m.set_visible(false).0.set_visible(true).0.attach(status_item, target);
            &&& shown.is_visible()
            &&& shown.wf()
            &&& shown.id == m.id
            &&& shown.attrs == m.attrs
            &&& shown.status_item == Some(status_item)
            &&& shown.target == Some(target)
        }),
{
}

/// A visible icon carries out each change of a shown attribute on the status
/// item it holds, and then fits its click target again.
pub proof fn lemma_visible_icon_refreshes<H, I, M>(
    m: TrayIconModel<H, I, M>,
    icon: Option<I>,
    tooltip: Option<Seq<char>>,
    title: Option<Seq<char>>,
)
    requires
        m.wf(),
        m.is_visible(),
    ensures
        m.set_icon(icon).1 == seq![
            PlatformOp::SetButtonImage { status_item: m.status_item->0, is_template: false },
            PlatformOp::UpdateDimensions { target: m.target->0 },
        ],
        m.set_tooltip(tooltip).1 == seq![
            PlatformOp::SetTooltip { status_item: m.status_item->0 },
            PlatformOp::UpdateDimensions { target: m.target->0 },
        ],
        m.set_title(title).1 == seq![
            PlatformOp::SetTitle { status_item: m.status_item->0 },
            PlatformOp::UpdateDimensions { target: m.target->0 },
        ],
{
}

/// Changing the icon image stores it and changes nothing else; an icon on
/// the status bar (status item `s`, click target `t`) shows it on `s`, not as
/// a template, and then refits `t`; a hidden icon asks for nothing.
pub proof fn lemma_set_icon_behaviour<H, I, M>(m: TrayIconModel<H, I, M>, icon: Option<I>)
    requires
        m.status_item is Some <==> m.target is Some,
    ensures
        m.set_icon(icon).0.status_item == m.status_item,
        m.set_icon(icon).0.target == m.target,
        m.set_icon(icon).0.id == m.id,
        m.set_icon(icon).0.attrs.icon == icon,
        m.set_icon(icon).0.attrs.tooltip == m.attrs.tooltip,
        m.set_icon(icon).0.attrs.title == m.attrs.title,
        m.set_icon(icon).0.attrs.icon_is_template == m.attrs.icon_is_template,
        m.set_icon(icon).0.attrs.menu == m.attrs.menu,
        m.set_icon(icon).0.attrs.menu_on_left_click == m.attrs.menu_on_left_click,
        m.status_item is Some ==> m.set_icon(icon).1 == seq![
            PlatformOp::SetButtonImage { status_item: m.status_item->0, is_template: false },
            PlatformOp::UpdateDimensions { target: m.target->0 },
        ],
        m.status_item is None ==> m.set_icon(icon).1.len() == 0,
{
}

/// Changing the menu stores it and changes nothing else; an icon on the
/// status bar hands the new menu, whether `Some` or `None`, to its status item
/// and click target; a hidden icon asks for nothing.
pub proof fn lemma_set_menu_behaviour<H, I, M>(m: TrayIconModel<H, I, M>, menu: Option<M>)
    requires
        m.status_item is Some <==> m.target is Some,
    ensures
        m.set_menu(menu).0.status_item == m.status_item,
        m.set_menu(menu).0.target == m.target,
        m.set_menu(menu).0.id == m.id,
        m.set_menu(menu).0.attrs.menu == menu,
        m.set_menu(menu).0.attrs.icon == m.attrs.icon,
        m.set_menu(menu).0.attrs.tooltip == m.attrs.tooltip,
        m.set_menu(menu).0.attrs.title == m.attrs.title,
        m.set_menu(menu).0.attrs.icon_is_template == m.attrs.icon_is_template,
        m.set_menu(menu).0.attrs.menu_on_left_click == m.attrs.menu_on_left_click,
        m.status_item is Some ==> m.set_menu(menu).1 == seq![
            PlatformOp::SetMenu { status_item: m.status_item->0, target: m.target->0 },
        ],
        m.status_item is None ==> m.set_menu(menu).1.len() == 0,
{
}

/// Changing the tooltip stores it and changes nothing else; an icon on the
/// status bar shows it on its status item and then refits its click target; a
/// hidden icon asks for nothing.
pub proof fn lemma_set_tooltip_behaviour<H, I, M>(m: TrayIconModel<H, I, M>, tooltip: Option<Seq<char>>)
    requires
        m.status_item is Some <==> m.target is Some,
    ensures
        m.set_tooltip(tooltip).0.status_item == m.status_item,
        m.set_tooltip(tooltip).0.target == m.target,
        m.set_tooltip(tooltip).0.id == m.id,
        m.set_tooltip(tooltip).0.attrs.tooltip == tooltip,
        m.set_tooltip(tooltip).0.attrs.icon == m.attrs.icon,
        m.set_tooltip(tooltip).0.attrs.title == m.attrs.title,
        m.set_tooltip(tooltip).0.attrs.icon_is_template == m.attrs.icon_is_template,
        m.set_tooltip(tooltip).0.attrs.menu == m.attrs.menu,
        m.set_tooltip(tooltip).0.attrs.menu_on_left_click == m.attrs.menu_on_left_click,
        m.status_item is Some ==> m.set_tooltip(tooltip).1 == seq![
            PlatformOp::SetTooltip { status_item: m.status_item->0 },
            PlatformOp::UpdateDimensions { target: m.target->0 },
        ],
        m.status_item is None ==> m.set_tooltip(tooltip).1.len() == 0,
{
}

/// Changing the title stores it and changes nothing else; an icon on the
/// status bar shows it on its status item and then refits its click target; a
/// hidden icon asks for nothing.
pub proof fn lemma_set_title_behaviour<H, I, M>(m: TrayIconModel<H, I, M>, title: Option<Seq<char>>)
    requires
        m.status_item is Some <==> m.target is Some,
    ensures
        m.set_title(title).0.status_item == m.status_item,
        m.set_title(title).0.target == m.target,
        m.set_title(title).0.id == m.id,
        m.set_title(title).0.attrs.title == title,
        m.set_title(title).0.attrs.icon == m.attrs.icon,
        m.set_title(title).0.attrs.tooltip == m.attrs.tooltip,
        m.set_title(title).0.attrs.icon_is_template == m.attrs.icon_is_template,
        m.set_title(title).0.attrs.menu == m.attrs.menu,
        m.set_title(title).0.attrs.menu_on_left_click == m.attrs.menu_on_left_click,
        m.status_item is Some ==> m.set_title(title).1 == seq![
            PlatformOp::SetTitle { status_item: m.status_item->0 },
            PlatformOp::UpdateDimensions { target: m.target->0 },
        ],
        m.status_item is None ==> m.set_title(title).1.len() == 0,
{
}

/// The template flag is stored as given and nothing else changes; when the
/// status item exists, the image on it is told exactly that flag.
pub proof fn lemma_set_icon_as_template_behaviour<H, I, M>(m: TrayIconModel<H, I, M>, is_template: bool)
    ensures
        m.set_icon_as_template(is_template).0.status_item == m.status_item,
        m.set_icon_as_template(is_template).0.target == m.target,
        m.set_icon_as_template(is_template).0.id == m.id,
        m.set_icon_as_template(is_template).0.attrs.icon_is_template == is_template,
        m.set_icon_as_template(is_template).0.attrs.icon == m.attrs.icon,
        m.set_icon_as_template(is_template).0.attrs.tooltip == m.attrs.tooltip,
        m.set_icon_as_template(is_template).0.attrs.title == m.attrs.title,
        m.set_icon_as_template(is_template).0.attrs.menu == m.attrs.menu,
        m.set_icon_as_template(is_template).0.attrs.menu_on_left_click == m.attrs.menu_on_left_click,
        m.status_item is Some ==> m.set_icon_as_template(is_template).1 == seq![
            PlatformOp::SetImageTemplate { status_item: m.status_item->0, is_template: is_template },
        ],
        m.status_item is None ==> m.set_icon_as_template(is_template).1.len() == 0,
{
}

/// The left-click flag is stored as given and nothing else changes; when the
/// click target exists, it is told exactly that flag.
pub proof fn lemma_set_show_menu_on_left_click_behaviour<H, I, M>(m: TrayIconModel<H, I, M>, enable: bool)
    ensures
        m.set_show_menu_on_left_click(enable).0.status_item == m.status_item,
        m.set_show_menu_on_left_click(enable).0.target == m.target,
        m.set_show_menu_on_left_click(enable).0.id == m.id,
        m.set_show_menu_on_left_click(enable).0.attrs.menu_on_left_click == enable,
        m.set_show_menu_on_left_click(enable).0.attrs.icon == m.attrs.icon,
        m.set_show_menu_on_left_click(enable).0.attrs.tooltip == m.attrs.tooltip,
        m.set_show_menu_on_left_click(enable).0.attrs.title == m.attrs.title,
        m.set_show_menu_on_left_click(enable).0.attrs.icon_is_template == m.attrs.icon_is_template,
        m.set_show_menu_on_left_click(enable).0.attrs.menu == m.attrs.menu,
        m.target is Some ==> m.set_show_menu_on_left_click(enable).1 == seq![
            PlatformOp::SetMenuOnLeftClick { target: m.target->0, enable: enable },
        ],
        m.target is None ==> m.set_show_menu_on_left_click(enable).1.len() == 0,
{
}

/// Removing drops both platform objects and keeps the id and attributes; when
/// both exist they are released, otherwise nothing is asked for.
pub proof fn lemma_remove_behaviour<H, I, M>(m: TrayIconModel<H, I, M>)
    ensures
        m.remove().0.status_item is None,
        m.remove().0.target is None,
        m.remove().0.id == m.id,
        m.remove().0.attrs == m.attrs,
        (m.status_item is Some && m.target is Some) ==> m.remove().1 == seq![
            PlatformOp::Remove { status_item: m.status_item->0, target: m.target->0 },
        ],
        !(m.status_item is Some && m.target is Some) ==> m.remove().1.len() == 0,
{
}

/// Showing an icon that is on the status bar changes nothing and asks for
/// nothing; showing a hidden icon changes nothing yet and asks for exactly
/// one creation; hiding drops both objects, keeps the id and attributes, and
/// releases the objects it held.
pub proof fn lemma_set_visible_behaviour<H, I, M>(m: TrayIconModel<H, I, M>)
    requires
        m.status_item is Some <==> m.target is Some,
    ensures
        m.status_item is Some ==> m.set_visible(true).0 == m,
        m.status_item is Some ==> m.set_visible(true).1.len() == 0,
        m.status_item is None ==> m.set_visible(true).0 == m,
        m.status_item is None ==> m.set_visible(true).1 == seq![PlatformOp::<H>::Create],
        m.set_visible(false).0.status_item is None,
        m.set_visible(false).0.target is None,
        m.set_visible(false).0.id == m.id,
        m.set_visible(false).0.attrs == m.attrs,
        m.status_item is Some ==> m.set_visible(false).1 == seq![
            PlatformOp::Remove { status_item: m.status_item->0, target: m.target->0 },
        ],
        m.status_item is None ==> m.set_visible(false).1.len() == 0,
{
}

/// Attaching gives the icon exactly the created status item and click target,
/// and keeps its id and attributes.
pub proof fn lemma_attach_behaviour<H, I, M>(m: TrayIconModel<H, I, M>, status_item: H, target: H)
    ensures
        m.attach(status_item, target).status_item == Some(status_item),
        m.attach(status_item, target).target == Some(target),
        m.attach(status_item, target).id == m.id,
        m.attach(status_item, target).attrs == m.attrs,
{
}

} // verus!
