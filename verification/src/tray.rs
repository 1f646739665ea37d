//! A tray icon: its attributes, and the status item that shows it while it is
//! visible. Every change returns the platform operations that carry it out.

use vstd::prelude::*;

use crate::model::{opt_str, AttrsModel, PlatformOp, TrayIconAttributes, TrayIconId, TrayIconModel};

verus! {

/// A status-bar tray icon.
///
/// `H` is a handle to a platform object. While the icon is visible it holds
/// the status item that shows it and the view that receives its clicks.
pub struct TrayIcon<H, I, M> {
    ns_status_item: Option<H>,
    tray_target: Option<H>,
    id: TrayIconId,
    attrs: TrayIconAttributes<I, M>,
}

impl<H, I, M> View for TrayIcon<H, I, M> {
    type V = TrayIconModel<H, I, M>;

    closed spec fn view(&self) -> TrayIconModel<H, I, M> {
        TrayIconModel {
            status_item: self.ns_status_item,
            target: self.tray_target,
            id: self.id.0@,
            attrs: self.attrs@,
        }
    }
}

impl<H: Copy, I, M> TrayIcon<H, I, M> {
    /// A visible tray icon, shown by the status item and click target that
    /// were created for `id` and `attrs`.
    pub fn new(id: TrayIconId, attrs: TrayIconAttributes<I, M>, status_item: H, target: H) -> (tray: Self)
        ensures
            tray@ == (TrayIconModel {
                status_item: Some(status_item),
                target: Some(target),
                id: id.0@,
                attrs: attrs@,
            }),
            tray@.wf(),
    {
        TrayIcon { ns_status_item: Some(status_item), tray_target: Some(target), id, attrs }
    }

    /// The identifier reported in click events.
    pub fn id(&self) -> (id: &TrayIconId)
        ensures
            id.0@ == self@.id,
    {
        &self.id
    }

    /// The attributes the icon holds, visible or not.
    pub fn attrs(&self) -> (attrs: &TrayIconAttributes<I, M>)
        ensures
            attrs@ == self@.attrs,
    {
        &self.attrs
    }

    /// Whether the icon is on the status bar.
    pub fn is_visible(&self) -> (visible: bool)
        ensures
            visible == self@.is_visible(),
    {
        self.ns_status_item.is_some()
    }

    /// Drops the platform objects; returns the operation that releases them
    /// when both exist.
    pub fn remove(&mut self) -> (ops: Vec<PlatformOp<H>>)
        ensures
            final(self)@ == old(self)@.remove().0,
            ops@ == old(self)@.remove().1,
    {
        let mut ops = Vec::new();
        if let (Some(s), Some(t)) = (self.ns_status_item, self.tray_target) {
            ops.push(PlatformOp::Remove { status_item: s, target: t });
        }
        self.ns_status_item = None;
        self.tray_target = None;
        ops
    }

    /// Sets the icon image; a visible icon shows it, not as a template.
    pub fn set_icon(&mut self, icon: Option<I>) -> (ops: Vec<PlatformOp<H>>)
        ensures
            final(self)@ == old(self)@.set_icon(icon).0,
            ops@ == old(self)@.set_icon(icon).1,
    {
        let mut ops = Vec::new();
        if let (Some(s), Some(t)) = (self.ns_status_item, self.tray_target) {
            ops.push(PlatformOp::SetButtonImage { status_item: s, is_template: false });
            ops.push(PlatformOp::UpdateDimensions { target: t });
        }
        self.attrs.icon = icon;
        ops
    }

    /// Sets the context menu; a visible icon hands it to the platform.
    pub fn set_menu(&mut self, menu: Option<M>) -> (ops: Vec<PlatformOp<H>>)
        ensures
            final(self)@ == old(self)@.set_menu(menu).0,
            ops@ == old(self)@.set_menu(menu).1,
    {
        let mut ops = Vec::new();
        if let (Some(s), Some(t)) = (self.ns_status_item, self.tray_target) {
            ops.push(PlatformOp::SetMenu { status_item: s, target: t });
        }
        self.attrs.menu = menu;
        ops
    }

    /// Sets the tooltip; a visible icon shows it.
    pub fn set_tooltip(&mut self, tooltip: Option<String>) -> (ops: Vec<PlatformOp<H>>)
        ensures
            final(self)@ == old(self)@.set_tooltip(opt_str(tooltip)).0,
            ops@ == old(self)@.set_tooltip(opt_str(tooltip)).1,
    {
        let mut ops = Vec::new();
        if let (Some(s), Some(t)) = (self.ns_status_item, self.tray_target) {
            ops.push(PlatformOp::SetTooltip { status_item: s });
            ops.push(PlatformOp::UpdateDimensions { target: t });
        }
        self.attrs.tooltip = tooltip;
        ops
    }

    /// Sets the title shown beside the icon; a visible icon shows it.
    pub fn set_title(&mut self, title: Option<String>) -> (ops: Vec<PlatformOp<H>>)
        ensures
            final(self)@ == old(self)@.set_title(opt_str(title)).0,
            ops@ == old(self)@.set_title(opt_str(title)).1,
    {
        let mut ops = Vec::new();
        if let (Some(s), Some(t)) = (self.ns_status_item, self.tray_target) {
            ops.push(PlatformOp::SetTitle { status_item: s });
            ops.push(PlatformOp::UpdateDimensions { target: t });
        }
        self.attrs.title = title;
        ops
    }

    /// Shows or hides the icon. Showing a hidden icon returns `Create`: the
    /// platform layer creates the objects and passes them to [`Self::attach`].
    pub fn set_visible(&mut self, visible: bool) -> (ops: Vec<PlatformOp<H>>)
        ensures
            final(self)@ == old(self)@.set_visible(visible).0,
            ops@ == old(self)@.set_visible(visible).1,
    {
        if visible {
            let mut ops = Vec::new();
            if self.ns_status_item.is_none() {
                ops.push(PlatformOp::Create);
            }
            ops
        } else {
            self.remove()
        }
    }

    /// Records the status item and click target created for a hidden icon.
    pub fn attach(&mut self, status_item: H, target: H)
        requires
            !old(self)@.is_visible(),
        ensures
            final(self)@ == old(self)@.attach(status_item, target),
    {
        self.ns_status_item = Some(status_item);
        self.tray_target = Some(target);
    }

    /// Marks the icon image as a template image or not.
    pub fn set_icon_as_template(&mut self, is_template: bool) -> (ops: Vec<PlatformOp<H>>)
        ensures
            final(self)@ == old(self)@.set_icon_as_template(is_template).0,
            ops@ == old(self)@.set_icon_as_template(is_template).1,
    {
        let mut ops = Vec::new();
        if let Some(s) = self.ns_status_item {
            ops.push(PlatformOp::SetImageTemplate { status_item: s, is_template });
        }
        self.attrs.icon_is_template = is_template;
        ops
    }

    /// Sets whether a left click opens the menu, as a right click does.
    pub fn set_show_menu_on_left_click(&mut self, enable: bool) -> (ops: Vec<PlatformOp<H>>)
        ensures
            final(self)@ == old(self)@.set_show_menu_on_left_click(enable).0,
            ops@ == old(self)@.set_show_menu_on_left_click(enable).1,
    {
        let mut ops = Vec::new();
        if let Some(t) = self.tray_target {
            ops.push(PlatformOp::SetMenuOnLeftClick { target: t, enable });
        }
        self.attrs.menu_on_left_click = enable;
        ops
    }

    /// Whether the icon is drawn in dark mode: `appearance_is_dark` tells it
    /// of the status item's appearance; a hidden icon is not in dark mode.
    pub fn is_dark_mode<F: Fn(H) -> bool>(&self, appearance_is_dark: F) -> (dark: bool)
        requires
            self@.status_item is Some ==> call_requires(appearance_is_dark, (self@.status_item->0,)),
        ensures
            self@.status_item is None ==> !dark,
            self@.status_item is Some ==> call_ensures(appearance_is_dark, (self@.status_item->0,), dark),
    {
        match self.ns_status_item {
            Some(s) => appearance_is_dark(s),
            None => false,
        }
    }
}

} // verus!
