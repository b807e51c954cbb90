//! The menu state machine: a cursor over an ordered list of menu entries,
//! with wrap-around navigation, selection, and back-references to a parent
//! menu, plus the staged builder that assembles a menu.

use vstd::prelude::*;
use crate::input::ESC;
use crate::input::KEY_DOWN;
use crate::input::KEY_ENTER;
use crate::input::KEY_UP;
use crate::input::NEWLINE;

verus! {

/// The kind tag of a node in the menu tree.  `StringLeaf` is a terminal
/// entry, not a navigable menu; the other kinds delegate their cursor to a
/// main-menu core.
#[derive(Clone, Copy, PartialEq, Eq, Structural, Debug)]
pub enum MenuObject {
    /// A plain textual entry: selectable, never navigable.
    StringLeaf,
    /// A nested menu with a mandatory parent.
    SubMenu,
    /// The root menu.
    MainMenu,
    /// The overlay menu shown while the game is paused.
    PauseMenu,
}

/// The mathematical state of a cursor menu: where the cursor stands, what
/// the menu is called, and what it offers.
pub struct MenuV {
    /// Cursor position.
    pub index: int,
    /// The menu's title.
    pub title: Seq<char>,
    /// The ordered entries.
    pub items: Seq<MenuObject>,
}

/// The cursor invariant: the index addresses an entry whenever there is one,
/// and rests at zero otherwise.
pub open spec fn menu_wf(m: MenuV) -> bool {
    if m.items.len() == 0 {
        m.index == 0
    } else {
        0 <= m.index < m.items.len()
    }
}

/// Where the cursor stands after moving up once: wrapping to the last entry
/// from the top, one step up otherwise.
pub open spec fn cursor_up_index(m: MenuV) -> int {
    if m.items.len() == 0 {
        0
    } else if m.index == 0 {
        m.items.len() - 1
    } else {
        m.index - 1
    }
}

/// Where the cursor stands after moving down once: wrapping to the first
/// entry from the bottom, one step down otherwise.
pub open spec fn cursor_down_index(m: MenuV) -> int {
    if m.items.len() == 0 {
        0
    } else if m.index == m.items.len() - 1 {
        0
    } else {
        m.index + 1
    }
}

/// What a menu answers to one keypress.
#[derive(Clone, Copy, PartialEq, Eq, Structural, Debug)]
pub enum MenuStep {
    /// The key moved the cursor or meant nothing; stay in this menu.
    Stay,
    /// The entry under the cursor was selected.
    Selected(MenuObject),
    /// The menu was dismissed toward its parent.
    ToParent,
}

/// The menu's answer to one keypress: the new cursor state and the step the
/// caller has to take.  The arrow keys move the cursor (wrapping), enter
/// selects the entry under the cursor, escape routes to the parent, and
/// every other key does nothing.
pub open spec fn menu_key_model(m: MenuV, key: i32) -> (MenuV, MenuStep) {
    if key == KEY_UP {
        (MenuV { index: cursor_up_index(m), ..m }, MenuStep::Stay)
    } else if key == KEY_DOWN {
        (MenuV { index: cursor_down_index(m), ..m }, MenuStep::Stay)
    } else if key == KEY_ENTER || key == NEWLINE {
        if m.items.len() > 0 {
            (m, MenuStep::Selected(m.items[m.index]))
        } else {
            (m, MenuStep::Stay)
        }
    } else if key == ESC {
        (m, MenuStep::ToParent)
    } else {
        (m, MenuStep::Stay)
    }
}

/// A cursor menu: the root of the menu tree, and the core every other
/// navigable menu delegates to.
pub struct MainMenu {
    index: usize,
    title: String,
    items: Vec<MenuObject>,
}

impl View for MainMenu {
    type V = MenuV;

    closed spec fn view(&self) -> MenuV {
        MenuV { index: self.index as int, title: self.title@, items: self.items@ }
    }
}

impl MainMenu {
    /// The cursor invariant of this menu.
    pub open spec fn wf(&self) -> bool {
        menu_wf(self@)
    }

    /// Create a menu with the cursor on the first entry.
    pub fn new_with_title_and_items(title: &str, items: Vec<MenuObject>) -> (m: MainMenu)
        ensures
            m@ == (MenuV { index: 0, title: title@, items: items@ }),
            m.wf(),
    {
        MainMenu { index: 0, title: title.to_owned(), items }
    }

    /// Get the parent menu of this menu; a root menu has none.
    pub fn get_parent(&self) -> (r: Option<MenuObject>)
        ensures
            r == None::<MenuObject>,
    {
        None
    }

    /// Where the cursor stands.
    pub fn cursor_index(&self) -> (r: usize)
        ensures
            r == self@.index,
    {
        self.index
    }

    /// The menu's title.
    pub fn title(&self) -> (r: &str)
        ensures
            r@ == self@.title,
    {
        self.title.as_str()
    }

    /// How many entries the menu offers.
    pub fn item_count(&self) -> (r: usize)
        ensures
            r == self@.items.len(),
    {
        self.items.len()
    }

    /// Move the cursor up one entry, wrapping from the top to the bottom.
    pub fn cursor_up(&mut self)
        requires
            old(self).wf(),
        ensures
            final(self)@ == (MenuV { index: cursor_up_index(old(self)@), ..old(self)@ }),
            final(self).wf(),
    {
        if self.items.len() == 0 {
        } else if self.index == 0 {
            self.index = self.items.len() - 1;
        } else {
            self.index = self.index - 1;
        }
    }

    /// Move the cursor down one entry, wrapping from the bottom to the top.
    pub fn cursor_down(&mut self)
        requires
            old(self).wf(),
        ensures
            final(self)@ == (MenuV { index: cursor_down_index(old(self)@), ..old(self)@ }),
            final(self).wf(),
    {
        if self.items.len() == 0 {
        } else if self.index == self.items.len() - 1 {
            self.index = 0;
        } else {
            self.index = self.index + 1;
        }
    }

    /// Select the current entry, returning it; the menu itself is unchanged.
    pub fn select(&self) -> (r: MenuObject)
        requires
            self.wf(),
            self@.items.len() > 0,
        ensures
            r == self@.items[self@.index],
    {
        self.items[self.index]
    }

    /// Answer one keypress: move the cursor, select, or route to the parent,
    /// as `menu_key_model` says.
    pub fn handle_key(&mut self, key: i32) -> (r: MenuStep)
        requires
            old(self).wf(),
        ensures
            (final(self)@, r) == menu_key_model(old(self)@, key),
            final(self).wf(),
    {
        if key == KEY_UP {
            self.cursor_up();
            MenuStep::Stay
        } else if key == KEY_DOWN {
            self.cursor_down();
            MenuStep::Stay
        } else if key == KEY_ENTER || key == NEWLINE {
            if self.items.len() > 0 {
                MenuStep::Selected(self.select())
            } else {
                MenuStep::Stay
            }
        } else if key == ESC {
            MenuStep::ToParent
        } else {
            MenuStep::Stay
        }
    }
}

/// The mathematical state of a menu that hangs under a parent: its cursor
/// core and the parent it reports.
pub struct LinkedMenuV {
    /// The cursor core.
    pub delegate: MenuV,
    /// The parent this menu returns to.
    pub parent: MenuObject,
}

/// The overlay menu shown while the game is paused.  It delegates cursor and
/// selection to its main-menu core and always has a parent.
pub struct PauseMenu {
    delegate: MainMenu,
    parent: MenuObject,
}

impl View for PauseMenu {
    type V = LinkedMenuV;

    closed spec fn view(&self) -> LinkedMenuV {
        LinkedMenuV { delegate: self.delegate@, parent: self.parent }
    }
}

impl PauseMenu {
    /// The cursor invariant of the delegate.
    pub open spec fn wf(&self) -> bool {
        menu_wf(self@.delegate)
    }

    /// Create a pause menu over the given cursor core, hanging under the
    /// given parent.
    pub fn new(delegate: MainMenu, parent: MenuObject) -> (m: PauseMenu)
        ensures
            m@ == (LinkedMenuV { delegate: delegate@, parent }),
    {
        PauseMenu { delegate, parent }
    }

    /// Get the parent menu of this menu.
    pub fn get_parent(&self) -> (r: Option<MenuObject>)
        ensures
            r == Some(self@.parent),
    {
        Some(self.parent)
    }

    /// Move the cursor up one entry, wrapping from the top to the bottom.
    pub fn cursor_up(&mut self)
        requires
            old(self).wf(),
        ensures
            final(self)@ == (LinkedMenuV {
                delegate: MenuV { index: cursor_up_index(old(self)@.delegate), ..old(self)@.delegate },
                parent: old(self)@.parent,
            }),
            final(self).wf(),
    {
        self.delegate.cursor_up();
    }

    /// Move the cursor down one entry, wrapping from the bottom to the top.
    pub fn cursor_down(&mut self)
        requires
            old(self).wf(),
        ensures
            final(self)@ == (LinkedMenuV {
                delegate: MenuV {
                    index: cursor_down_index(old(self)@.delegate),
                    ..old(self)@.delegate
                },
                parent: old(self)@.parent,
            }),
            final(self).wf(),
    {
        self.delegate.cursor_down();
    }

    /// Select the current entry, returning it.
    pub fn select(&self) -> (r: MenuObject)
        requires
            self.wf(),
            self@.delegate.items.len() > 0,
        ensures
            r == self@.delegate.items[self@.delegate.index],
    {
        self.delegate.select()
    }

    /// Answer one keypress on the delegate cursor.
    pub fn handle_key(&mut self, key: i32) -> (r: MenuStep)
        requires
            old(self).wf(),
        ensures
            (final(self)@.delegate, r) == menu_key_model(old(self)@.delegate, key),
            final(self)@.parent == old(self)@.parent,
            final(self).wf(),
    {
        self.delegate.handle_key(key)
    }
}

/// A nested menu.  It delegates cursor and selection to its main-menu core
/// and always has a parent.
pub struct SubMenu {
    delegate: MainMenu,
    parent: MenuObject,
}

impl View for SubMenu {
    type V = LinkedMenuV;

    closed spec fn view(&self) -> LinkedMenuV {
        LinkedMenuV { delegate: self.delegate@, parent: self.parent }
    }
}

impl SubMenu {
    /// The cursor invariant of the delegate.
    pub open spec fn wf(&self) -> bool {
        menu_wf(self@.delegate)
    }

    /// Create a nested menu over the given cursor core, hanging under the
    /// given parent.
    pub fn new(delegate: MainMenu, parent: MenuObject) -> (m: SubMenu)
        ensures
            m@ == (LinkedMenuV { delegate: delegate@, parent }),
    {
        SubMenu { delegate, parent }
    }

    /// Get the parent menu of this menu.
    pub fn get_parent(&self) -> (r: Option<MenuObject>)
        ensures
            r == Some(self@.parent),
    {
        Some(self.parent)
    }

    /// Move the cursor up one entry, wrapping from the top to the bottom.
    pub fn cursor_up(&mut self)
        requires
            old(self).wf(),
        ensures
            final(self)@ == (LinkedMenuV {
                delegate: MenuV { index: cursor_up_index(old(self)@.delegate), ..old(self)@.delegate },
                parent: old(self)@.parent,
            }),
            final(self).wf(),
    {
        self.delegate.cursor_up();
    }

    /// Move the cursor down one entry, wrapping from the bottom to the top.
    pub fn cursor_down(&mut self)
        requires
            old(self).wf(),
        ensures
            final(self)@ == (LinkedMenuV {
                delegate: MenuV {
                    index: cursor_down_index(old(self)@.delegate),
                    ..old(self)@.delegate
                },
                parent: old(self)@.parent,
            }),
            final(self).wf(),
    {
        self.delegate.cursor_down();
    }

    /// Select the current entry, returning it.
    pub fn select(&self) -> (r: MenuObject)
        requires
            self.wf(),
            self@.delegate.items.len() > 0,
        ensures
            r == self@.delegate.items[self@.delegate.index],
    {
        self.delegate.select()
    }

    /// Answer one keypress on the delegate cursor.
    pub fn handle_key(&mut self, key: i32) -> (r: MenuStep)
        requires
            old(self).wf(),
        ensures
            (final(self)@.delegate, r) == menu_key_model(old(self)@.delegate, key),
            final(self)@.parent == old(self)@.parent,
            final(self).wf(),
    {
        self.delegate.handle_key(key)
    }
}

/// The message a builder hands back when asked to build a bare string leaf.
pub const LEAF_REJECTED: &'static str = "Cannot use MenuBuilder to build String";

/// The message a builder hands back when its title is still empty at build
/// time.
pub const TITLE_MISSING: &'static str = "Cannot build a menu without a title";

/// The message a builder hands back when its cursor index does not address
/// an entry.
pub const INDEX_OUT_OF_BOUNDS: &'static str = "Cannot build a menu with the cursor outside its items";

/// The mathematical state of a menu builder.
pub struct MenuBuilderV {
    /// Cursor position the menu will start with.
    pub index: int,
    /// Title the menu will carry.
    pub title: Seq<char>,
    /// Entries the menu will offer.
    pub items: Seq<MenuObject>,
    /// Which kind of menu is being built.
    pub kind: MenuObject,
}

/// A staged constructor for menus.  Only navigable kinds can be built; a
/// bare string leaf is rejected at creation, and a missing title or an
/// out-of-range cursor index is rejected at build time.
pub struct MenuBuilder {
    index: usize,
    title: String,
    items: Vec<MenuObject>,
    kind: MenuObject,
}

impl View for MenuBuilder {
    type V = MenuBuilderV;

    closed spec fn view(&self) -> MenuBuilderV {
        MenuBuilderV {
            index: self.index as int,
            title: self.title@,
            items: self.items@,
            kind: self.kind,
        }
    }
}

impl MenuBuilder {
    /// Create a new `MenuBuilder` to build a `MainMenu`.
    pub fn new() -> (r: Result<MenuBuilder, &'static str>)
        ensures
            (r matches Ok(b) && b@ == (MenuBuilderV {
                index: 0,
                title: Seq::empty(),
                items: Seq::empty(),
                kind: MenuObject::MainMenu,
            })),
    {
        MenuBuilder::new_of_kind(MenuObject::MainMenu)
    }

    /// Create a new `MenuBuilder` to build a menu of the designated kind.
    /// Exactly the navigable kinds are accepted; a string leaf is not a menu
    /// and is refused.
    pub fn new_of_kind(kind: MenuObject) -> (r: Result<MenuBuilder, &'static str>)
        ensures
            r is Err <==> kind is StringLeaf,
            (r matches Ok(b) ==> b@ == (MenuBuilderV {
                index: 0,
                title: Seq::empty(),
                items: Seq::empty(),
                kind,
            })),
            (r matches Err(m) ==> m@ == LEAF_REJECTED@),
    {
        match kind {
            MenuObject::MainMenu | MenuObject::PauseMenu | MenuObject::SubMenu => Ok(
                MenuBuilder { index: 0, title: String::new(), items: Vec::new(), kind },
            ),
            MenuObject::StringLeaf => Err(LEAF_REJECTED),
        }
    }

    /// Set the cursor index the menu will start with.
    pub fn index(&mut self, index: usize)
        ensures
            final(self)@ == (MenuBuilderV { index: index as int, ..old(self)@ }),
    {
        self.index = index;
    }

    /// Set the title the menu will carry.
    pub fn title(&mut self, title: &str)
        ensures
            final(self)@ == (MenuBuilderV { title: title@, ..old(self)@ }),
    {
        self.title = title.to_owned();
    }

    /// Set the entries the menu will offer.
    pub fn items(&mut self, items: Vec<MenuObject>)
        ensures
            final(self)@ == (MenuBuilderV { items: items@, ..old(self)@ }),
    {
        self.items = items;
    }

    /// Change which kind of menu is being built.
    pub fn kind(&mut self, kind: MenuObject)
        ensures
            final(self)@ == (MenuBuilderV { kind, ..old(self)@ }),
    {
        self.kind = kind;
    }

    /// True when this builder's state can become a menu: a navigable kind, a
    /// title, and a cursor index that respects the cursor invariant.
    pub open spec fn buildable(&self) -> bool {
        &&& !(self@.kind is StringLeaf)
        &&& self@.title.len() > 0
        &&& menu_wf(MenuV { index: self@.index, title: self@.title, items: self@.items })
    }

    /// Finish the build: hand back the cursor core of the menu, or say what
    /// is wrong with the builder's state.  A pause or nested menu takes this
    /// core as its delegate and hangs it under its parent.
    pub fn build(self) -> (r: Result<MainMenu, &'static str>)
        ensures
            r is Ok <==> self.buildable(),
            (r matches Ok(m) ==> m@ == (MenuV {
                index: self@.index,
                title: self@.title,
                items: self@.items,
            }) && m.wf()),
            (self@.kind is StringLeaf ==> (r matches Err(e) && e@ == LEAF_REJECTED@)),
            (!(self@.kind is StringLeaf) && self@.title.len() == 0 ==> (r matches Err(e) && e@
                == TITLE_MISSING@)),
            (!(self@.kind is StringLeaf) && self@.title.len() > 0 && !self.buildable() ==> (
            r matches Err(e) && e@ == INDEX_OUT_OF_BOUNDS@)),
    {
        if matches!(self.kind, MenuObject::StringLeaf) {
            Err(LEAF_REJECTED)
        } else if self.title.as_str().is_empty() {
            Err(TITLE_MISSING)
        } else if !(if self.items.len() == 0 {
            self.index == 0
        } else {
            self.index < self.items.len()
        }) {
            Err(INDEX_OUT_OF_BOUNDS)
        } else {
            Ok(MainMenu { index: self.index, title: self.title, items: self.items })
        }
    }
}

} // verus!
