//! The mathematical model of a status-bar tray icon: what it shows, whether it
//! is on screen, and which platform operations each change asks for.

use vstd::prelude::*;

verus! {

/// The identifier that a tray icon reports in its click events.
pub struct TrayIconId(pub String);

/// Which mouse button produced a click on the tray icon.
#[derive(PartialEq, Eq, Structural, Clone, Copy, Debug)]
pub enum ClickType {
    Left,
    Right,
}

/// What a tray icon shows and how it reacts.
///
/// `I` is the icon image and `M` the context menu; the library stores them and
/// hands them back, it never looks inside them.
pub struct TrayIconAttributes<I, M> {
    pub tooltip: Option<String>,
    pub title: Option<String>,
    pub icon: Option<I>,
    pub icon_is_template: bool,
    pub menu: Option<M>,
    pub menu_on_left_click: bool,
}

/// The view of an optional string.
pub open spec fn opt_str(s: Option<String>) -> Option<Seq<char>> {
    match s {
        Some(s) => Some(s@),
        None => None,
    }
}

/// The abstract value of a [`TrayIconAttributes`].
pub struct AttrsModel<I, M> {
    pub tooltip: Option<Seq<char>>,
    pub title: Option<Seq<char>>,
    pub icon: Option<I>,
    pub icon_is_template: bool,
    pub menu: Option<M>,
    pub menu_on_left_click: bool,
}

impl<I, M> View for TrayIconAttributes<I, M> {
    type V = AttrsModel<I, M>;

    open spec fn view(&self) -> AttrsModel<I, M> {
        AttrsModel {
            tooltip: opt_str(self.tooltip),
            title: opt_str(self.title),
            icon: self.icon,
            icon_is_template: self.icon_is_template,
            menu: self.menu,
            menu_on_left_click: self.menu_on_left_click,
        }
    }
}

/// One change that the platform layer must make to the status item (`H` is a
/// handle to a platform object).
///
/// Operations that show an attribute take its value from the attributes that
/// the tray icon holds once the call that asked for them has returned.
pub enum PlatformOp<H> {
    /// Create the status item and its click target from the current id and
    /// attributes, then attach them to the tray icon.
    Create,
    /// Take the status item off the status bar and release both objects.
    Remove { status_item: H, target: H },
    /// Show the current icon on the status item's button.
    SetButtonImage { status_item: H, is_template: bool },
    /// Give the current menu to the click target and to the status item.
    SetMenu { status_item: H, target: H },
    /// Show the current tooltip on the status item's button.
    SetTooltip { status_item: H },
    /// Show the current title on the status item's button.
    SetTitle { status_item: H },
    /// Mark the image on the status item's button as a template image or not.
    SetImageTemplate { status_item: H, is_template: bool },
    /// Tell the click target whether a left click opens the menu.
    SetMenuOnLeftClick { target: H, enable: bool },
    /// Fit the click target to the status item's button again.
    UpdateDimensions { target: H },
}

/// The abstract state of a tray icon.
pub struct TrayIconModel<H, I, M> {
    pub status_item: Option<H>,
    pub target: Option<H>,
    pub id: Seq<char>,
    pub attrs: AttrsModel<I, M>,
}

impl<H, I, M> TrayIconModel<H, I, M> {
    /// The status item and its click target exist together or not at all.
    pub open spec fn wf(self) -> bool {
        self.status_item is Some <==> self.target is Some
    }

    /// The icon is on the status bar.
    pub open spec fn is_visible(self) -> bool {
        self.status_item is Some
    }

    /// The same tray icon holding other attributes.
    pub open spec fn with_attrs(self, attrs: AttrsModel<I, M>) -> Self {
        TrayIconModel { attrs, ..self }
    }

    /// The operations `first` on the status item and then `UpdateDimensions`
    /// on the target, when both exist.
    pub open spec fn refresh_ops(self, first: spec_fn(H) -> PlatformOp<H>) -> Seq<PlatformOp<H>> {
        match (self.status_item, self.target) {
            (Some(s), Some(t)) => seq![first(s), PlatformOp::UpdateDimensions { target: t }],
            _ => seq![],
        }
    }

    pub open spec fn set_icon(self, icon: Option<I>) -> (Self, Seq<PlatformOp<H>>) {
        (
            self.with_attrs(AttrsModel { icon, ..self.attrs }),
            self.refresh_ops(|s: H| PlatformOp::SetButtonImage { status_item: s, is_template: false }),
        )
    }

    pub open spec fn set_menu(self, menu: Option<M>) -> (Self, Seq<PlatformOp<H>>) {
        (
            self.with_attrs(AttrsModel { menu, ..self.attrs }),
            match (self.status_item, self.target) {
                (Some(s), Some(t)) => seq![PlatformOp::SetMenu { status_item: s, target: t }],
                _ => seq![],
            },
        )
    }

    pub open spec fn set_tooltip(self, tooltip: Option<Seq<char>>) -> (Self, Seq<PlatformOp<H>>) {
        (
            self.with_attrs(AttrsModel { tooltip, ..self.attrs }),
            self.refresh_ops(|s: H| PlatformOp::SetTooltip { status_item: s }),
        )
    }

    pub open spec fn set_title(self, title: Option<Seq<char>>) -> (Self, Seq<PlatformOp<H>>) {
        (
            self.with_attrs(AttrsModel { title, ..self.attrs }),
            self.refresh_ops(|s: H| PlatformOp::SetTitle { status_item: s }),
        )
    }

    pub open spec fn set_icon_as_template(self, is_template: bool) -> (Self, Seq<PlatformOp<H>>) {
        (
            self.with_attrs(AttrsModel { icon_is_template: is_template, ..self.attrs }),
            match self.status_item {
                Some(s) => seq![PlatformOp::SetImageTemplate { status_item: s, is_template }],
                None => seq![],
            },
        )
    }

    pub open spec fn set_show_menu_on_left_click(self, enable: bool) -> (Self, Seq<PlatformOp<H>>) {
        (
            self.with_attrs(AttrsModel { menu_on_left_click: enable, ..self.attrs }),
            match self.target {
                Some(t) => seq![PlatformOp::SetMenuOnLeftClick { target: t, enable }],
                None => seq![],
            },
        )
    }

    /// Both platform objects are dropped; they are released when both exist.
    pub open spec fn remove(self) -> (Self, Seq<PlatformOp<H>>) {
        (
            TrayIconModel { status_item: None, target: None, ..self },
            match (self.status_item, self.target) {
                (Some(s), Some(t)) => seq![PlatformOp::Remove { status_item: s, target: t }],
                _ => seq![],
            },
        )
    }

    /// Showing a hidden icon asks for its creation and changes nothing yet;
    /// hiding removes it.
    pub open spec fn set_visible(self, visible: bool) -> (Self, Seq<PlatformOp<H>>) {
        if visible {
            if self.status_item is None {
                (self, seq![PlatformOp::Create])
            } else {
                (self, seq![])
            }
        } else {
            self.remove()
        }
    }

    /// The icon after its platform objects were created.
    pub open spec fn attach(self, status_item: H, target: H) -> Self {
        TrayIconModel { status_item: Some(status_item), target: Some(target), ..self }
    }
}

/// The view of the attributes keeps every attribute: a string by its
/// characters, the other values as they are.
pub proof fn lemma_attrs_view<I, M>(a: TrayIconAttributes<I, M>, s: String)
    ensures
        opt_str(Some(s)) == Some(s@),
        opt_str(None) == None::<Seq<char>>,
        a.tooltip is Some ==> a@.tooltip == Some(a.tooltip->0@),
        a.tooltip is None ==> a@.tooltip is None,
        a.title is Some ==> a@.title == Some(a.title->0@),
        a.title is None ==> a@.title is None,
        a@.icon == a.icon,
        a@.icon_is_template == a.icon_is_template,
        a@.menu == a.menu,
        a@.menu_on_left_click == a.menu_on_left_click,
{
}

} // verus!
