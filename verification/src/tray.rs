//! The tray icon: the input mode it shows, whether it is shown, its color,
//! and the actions of its menu.

use vstd::prelude::*;

use crate::daemon::InputMode;
use crate::text::owned;

verus! {

/// What a click on a tray menu item asks for.
#[derive(Debug, Clone, Copy, PartialEq, Eq, Structural)]
pub enum MenuAction {
    ToggleMode,
    Deploy,
    Exit,
}

/// The action of the menu item `id` for an event of kind `event_type`:
/// only clicks act; item 1 toggles the mode, 3 redeploys, 4 exits.
pub open spec fn spec_menu_action(id: i32, event_type: Seq<char>) -> Option<MenuAction> {
    if event_type != "clicked"@ {
        None
    } else if id == 1 {
        Some(MenuAction::ToggleMode)
    } else if id == 3 {
        Some(MenuAction::Deploy)
    } else if id == 4 {
        Some(MenuAction::Exit)
    } else {
        None
    }
}

/// The action a menu event asks for, if any.
pub fn menu_action_for(id: i32, event_type: &str) -> (r: Option<MenuAction>)
    ensures
        r == spec_menu_action(id, event_type@),
{
    if !crate::keys::same_text(event_type, "clicked") {
        return None;
    }
    match id {
        1 => Some(MenuAction::ToggleMode),
        3 => Some(MenuAction::Deploy),
        4 => Some(MenuAction::Exit),
        _ => None,
    }
}

/// Whether the menu is about to be shown for `id`: only the root menu is.
pub fn about_to_show(id: i32) -> (r: bool)
    ensures
        r == (id == 0),
{
    id == 0
}

/// One property of a menu node: its name and its text value.
pub type MenuProperty = (String, String);

/// A node of the tray menu's layout: its id, its properties and its children.
pub struct MenuNode {
    pub id: i32,
    pub properties: Vec<MenuProperty>,
    pub children: Vec<MenuNode>,
}

/// A menu node as plain values: id, properties, and the ids and
/// properties of its children (the menu has one level of children).
pub type MenuNodeView = (int, Seq<(Seq<char>, Seq<char>)>, Seq<(int, Seq<(Seq<char>, Seq<char>)>)>);

/// The view of a list of properties.
pub open spec fn props_view(p: Seq<MenuProperty>) -> Seq<(Seq<char>, Seq<char>)> {
    p.map_values(|x: MenuProperty| (x.0@, x.1@))
}

/// The view of a menu node.
pub open spec fn node_view(n: MenuNode) -> MenuNodeView {
    (
        n.id as int,
        props_view(n.properties@),
        n.children@.map_values(|c: MenuNode| (c.id as int, props_view(c.properties@))),
    )
}

/// The tray menu under `parent_id`: the root (id 0) shows its children as
/// a submenu: toggle mode (1), a separator (2), redeploy (3) and exit (4);
/// any other node has no properties and no children.
pub open spec fn spec_layout(parent_id: i32) -> MenuNodeView {
    if parent_id == 0 {
        (
            0,
            seq![("children-display"@, "submenu"@)],
            seq![
                (1, seq![("label"@, "切换中英文"@), ("icon-name"@, "input-keyboard"@)]),
                (2, seq![("type"@, "separator"@)]),
                (3, seq![("label"@, "重新部署"@), ("icon-name"@, "view-refresh"@)]),
                (4, seq![("label"@, "退出"@), ("icon-name"@, "application-exit"@)]),
            ],
        )
    } else {
        (parent_id as int, Seq::empty(), Seq::empty())
    }
}

fn prop(name: &str, value: &str) -> (r: MenuProperty)
    ensures
        r.0@ == name@,
        r.1@ == value@,
{
    (owned(name), owned(value))
}

fn leaf(id: i32, properties: Vec<MenuProperty>) -> (r: MenuNode)
    ensures
        r.id == id,
        r.properties@ == properties@,
        r.children@.len() == 0,
{
    MenuNode { id, properties, children: Vec::new() }
}

/// The tray's menu: a revision number for its layout.
pub struct DBusMenu {
    pub revision: u32,
}

impl DBusMenu {
    /// A menu at revision 0.
    pub fn new() -> (m: Self)
        ensures
            m.revision == 0,
    {
        DBusMenu { revision: 0 }
    }

    /// The revision and the layout of the menu under `parent_id`.
    pub fn get_layout(&self, parent_id: i32) -> (r: (u32, MenuNode))
        ensures
            r.0 == self.revision,
            node_view(r.1) == spec_layout(parent_id),
    {
        if parent_id == 0 {
            let mut children: Vec<MenuNode> = Vec::new();
            children.push(leaf(1, vec![prop("label", "切换中英文"), prop("icon-name", "input-keyboard")]));
            children.push(leaf(2, vec![prop("type", "separator")]));
            children.push(leaf(3, vec![prop("label", "重新部署"), prop("icon-name", "view-refresh")]));
            children.push(leaf(4, vec![prop("label", "退出"), prop("icon-name", "application-exit")]));
            let root = MenuNode {
                id: 0,
                properties: vec![prop("children-display", "submenu")],
                children,
            };
            proof {
                assert(props_view(root.properties@) =~= seq![("children-display"@, "submenu"@)]);
                assert(props_view(root.children@[0].properties@) =~= seq![("label"@, "切换中英文"@), ("icon-name"@, "input-keyboard"@)]);
                assert(props_view(root.children@[1].properties@) =~= seq![("type"@, "separator"@)]);
                assert(props_view(root.children@[2].properties@) =~= seq![("label"@, "重新部署"@), ("icon-name"@, "view-refresh"@)]);
                assert(props_view(root.children@[3].properties@) =~= seq![("label"@, "退出"@), ("icon-name"@, "application-exit"@)]);
                assert(node_view(root).2 =~= spec_layout(parent_id).2);
            }
            (self.revision, root)
        } else {
            let n = MenuNode { id: parent_id, properties: Vec::new(), children: Vec::new() };
            proof {
                assert(props_view(n.properties@) =~= Seq::empty());
                assert(node_view(n).2 =~= Seq::empty());
            }
            (self.revision, n)
        }
    }

    /// The properties of the given items: none are published.
    pub fn get_group_properties(&self, ids: &Vec<i32>) -> (r: Vec<(i32, Vec<MenuProperty>)>)
        ensures
            r@.len() == 0,
    {
        Vec::new()
    }

    /// The menu protocol version spoken.
    pub fn version(&self) -> (v: u32)
        ensures
            v == 2,
    {
        2
    }

    /// The menu's status: always "normal".
    pub fn status(&self) -> (s: String)
        ensures
            s@ == "normal"@,
    {
        owned("normal")
    }
}

/// The other input mode.
pub open spec fn other_mode(mode: InputMode) -> InputMode {
    match mode {
        InputMode::Chinese => InputMode::English,
        InputMode::English => InputMode::Chinese,
    }
}

/// The tray item's state.
pub struct StatusNotifierItem {
    mode: InputMode,
    visible: bool,
    primary_color: (u8, u8, u8),
}

impl StatusNotifierItem {
    /// The mode shown.
    pub closed spec fn spec_mode(&self) -> InputMode {
        self.mode
    }

    /// Whether the icon is shown.
    pub closed spec fn spec_visible(&self) -> bool {
        self.visible
    }

    /// The color of the Chinese-mode icon.
    pub closed spec fn spec_color(&self) -> (u8, u8, u8) {
        self.primary_color
    }

    /// A hidden item in Chinese mode, in lavender purple.
    pub fn new() -> (s: Self)
        ensures
            s.spec_mode() == InputMode::Chinese,
            !s.spec_visible(),
            s.spec_color() == (0x8Fu8, 0x73u8, 0xE2u8),
    {
        StatusNotifierItem { mode: InputMode::Chinese, visible: false, primary_color: (0x8F, 0x73, 0xE2) }
    }

    /// Shows `mode`.
    pub fn set_mode(&mut self, mode: InputMode)
        ensures
            final(self).spec_mode() == mode,
            final(self).spec_visible() == old(self).spec_visible(),
            final(self).spec_color() == old(self).spec_color(),
    {
        self.mode = mode;
    }

    /// The mode shown.
    pub fn get_mode(&self) -> (m: InputMode)
        ensures
            m == self.spec_mode(),
    {
        self.mode
    }

    /// Shows or hides the icon.
    pub fn set_visible(&mut self, visible: bool)
        ensures
            final(self).spec_visible() == visible,
            final(self).spec_mode() == old(self).spec_mode(),
            final(self).spec_color() == old(self).spec_color(),
    {
        self.visible = visible;
    }

    /// Whether the icon is shown.
    pub fn is_visible(&self) -> (b: bool)
        ensures
            b == self.spec_visible(),
    {
        self.visible
    }

    /// Sets the color of the Chinese-mode icon.
    pub fn set_primary_color(&mut self, color: (u8, u8, u8))
        ensures
            final(self).spec_color() == color,
            final(self).spec_mode() == old(self).spec_mode(),
            final(self).spec_visible() == old(self).spec_visible(),
    {
        self.primary_color = color;
    }

    /// The color of the Chinese-mode icon.
    pub fn get_primary_color(&self) -> (c: (u8, u8, u8))
        ensures
            c == self.spec_color(),
    {
        self.primary_color
    }

    /// Switches to the other mode.
    pub fn toggle_mode(&mut self)
        ensures
            final(self).spec_mode() == other_mode(old(self).spec_mode()),
            final(self).spec_visible() == old(self).spec_visible(),
            final(self).spec_color() == old(self).spec_color(),
    {
        let m = match self.mode {
            InputMode::Chinese => InputMode::English,
            InputMode::English => InputMode::Chinese,
        };
        self.mode = m;
    }

    /// The item's status: "Active" when shown, else "Passive".
    pub fn status(&self) -> (s: String)
        ensures
            s@ == (if self.spec_visible() {
                "Active"@
            } else {
                "Passive"@
            }),
    {
        if self.visible {
            owned("Active")
        } else {
            owned("Passive")
        }
    }

    /// The icon's label and background color: "ZH" on the primary color in
    /// Chinese mode, "EN" on gray in English mode.
    pub fn icon_face(&self) -> (r: (String, (u8, u8, u8)))
        ensures
            self.spec_mode() == InputMode::Chinese ==> r.0@ == "ZH"@ && r.1 == self.spec_color(),
            self.spec_mode() == InputMode::English ==> r.0@ == "EN"@ && r.1 == (0x60u8, 0x60u8, 0x60u8),
    {
        match self.mode {
            InputMode::Chinese => (owned("ZH"), self.primary_color),
            InputMode::English => (owned("EN"), (0x60, 0x60, 0x60)),
        }
    }

    /// The tooltip's title for the mode shown.
    pub fn tooltip_title(&self) -> (s: String)
        ensures
            self.spec_mode() == InputMode::Chinese ==> s@ == "中文输入"@,
            self.spec_mode() == InputMode::English ==> s@ == "英文输入"@,
    {
        match self.mode {
            InputMode::Chinese => owned("中文输入"),
            InputMode::English => owned("英文输入"),
        }
    }
}

/// Toggling the mode twice shows the mode shown before.
pub proof fn lemma_toggle_twice(mode: InputMode)
    ensures
        other_mode(other_mode(mode)) == mode,
{
}

/// The status to announce when the icon's visibility goes from `was` to
/// `now`: "Active" or "Passive", and nothing when it does not change.
pub fn visibility_change(was: bool, now: bool) -> (r: Option<String>)
    ensures
        was == now ==> r is None,
        was != now ==> (r matches Some(s) && s@ == (if now {
            "Active"@
        } else {
            "Passive"@
        })),
{
    if was == now {
        None
    } else if now {
        Some(owned("Active"))
    } else {
        Some(owned("Passive"))
    }
}

} // verus!
