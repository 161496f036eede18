//! The two backends for Linux, and the choice between them.

use vstd::prelude::*;

use crate::hotkey::HotKey;

verus! {

/// A backend for Linux.
#[derive(Clone, Copy, Debug, PartialEq, Eq, Structural)]
pub enum Backend {
    X11,
    Wayland,
}

/// Neither backend could be started.
#[derive(Clone, Copy, Debug, PartialEq, Eq, Structural)]
pub struct NoBackend;

/// The backend to use, by which of them can be started.
pub open spec fn backend_for(wayland: bool, x11: bool) -> Result<Backend, NoBackend> {
    if wayland {
        Ok(Backend::Wayland)
    } else if x11 {
        Ok(Backend::X11)
    } else {
        Err(NoBackend)
    }
}

/// A backend is used if one can be started, and it is one that can. Where Wayland can, it does not
/// matter whether X11 can.
pub proof fn law_backends_can_be_started(wayland: bool, x11: bool)
    ensures
        (backend_for(wayland, x11) is Ok) == (wayland || x11),
        backend_for(wayland, x11) == Ok::<Backend, NoBackend>(Backend::Wayland) ==> wayland,
        backend_for(wayland, x11) == Ok::<Backend, NoBackend>(Backend::X11) ==> x11,
        backend_for(true, true) == backend_for(true, false),
{
}

/// Chooses the backend: Wayland if it can be started, or else X11. X11 is not started where Wayland
/// could be, so `x11` counts only then.
pub fn choose_backend(wayland: bool, x11: bool) -> (backend: Result<Backend, NoBackend>)
    ensures
        backend == backend_for(wayland, x11),
{
    if wayland {
        return Ok(Backend::Wayland);
    }
    if x11 {
        return Ok(Backend::X11);
    }
    Err(NoBackend)
}

/// The monitors that a backend tells of. Wayland does not tell of any yet.
pub fn get_monitors<M>(backend: Backend, x11_monitors: Vec<M>) -> (monitors: Vec<M>)
    ensures
        match backend {
            Backend::X11 => monitors == x11_monitors,
            Backend::Wayland => monitors@.len() == 0,
        },
{
    match backend {
        Backend::X11 => x11_monitors,
        Backend::Wayland => Vec::new(),
    }
}

/// Something that is added to a menu.
#[derive(Debug)]
pub enum MenuEntry {
    Dropdown { menu: Vec<MenuEntry>, text: String, enabled: bool },
    Item {
        id: u32,
        text: String,
        key: Option<HotKey>,
        selected: Option<bool>,
        enabled: bool,
    },
    Separator,
}

/// A menu, for the backend that shows it.
#[derive(Debug)]
pub struct Menu {
    backend: Backend,
    popup: bool,
    entries: Vec<MenuEntry>,
}

impl Menu {
    /// The backend that shows the menu.
    pub closed spec fn shown_by(self) -> Backend {
        self.backend
    }

    pub closed spec fn is_popup(self) -> bool {
        self.popup
    }

    /// What was added to the menu, in order.
    pub closed spec fn added(self) -> Seq<MenuEntry> {
        self.entries@
    }

    /// What was added to the menu, in order.
    pub fn entries(&self) -> (entries: &Vec<MenuEntry>)
        ensures
            entries@ == self.added(),
    {
        &self.entries
    }

    pub fn new(backend: Backend) -> (menu: Menu)
        ensures
            menu.shown_by() == backend,
            !menu.is_popup(),
            menu.added().len() == 0,
    {
        Menu { backend, popup: false, entries: Vec::new() }
    }

    pub fn new_for_popup(backend: Backend) -> (menu: Menu)
        ensures
            menu.shown_by() == backend,
            menu.is_popup(),
            menu.added().len() == 0,
    {
        Menu { backend, popup: true, entries: Vec::new() }
    }

    /// Adds a menu in this one. A menu for another backend is left out.
    pub fn add_dropdown(&mut self, menu: Menu, text: &str, enabled: bool)
        ensures
            final(self).shown_by() == old(self).shown_by(),
            final(self).is_popup() == old(self).is_popup(),
            menu.shown_by() != old(self).shown_by() ==> *final(self) == *old(self),
            menu.shown_by() == old(self).shown_by() ==> {
                &&& final(self).added().len() == old(self).added().len() + 1
                &&& final(self).added().drop_last() == old(self).added()
                &&& final(self).added().last() matches MenuEntry::Dropdown {
                    menu: entries,
                    text: shown,
                    enabled: can_be_opened,
                } && entries@ == menu.added() && shown@ == text@ && can_be_opened == enabled
            },
    {
        if menu.backend == self.backend {
            self.entries.push(
                MenuEntry::Dropdown { menu: menu.entries, text: text.to_owned(), enabled },
            );
            assert(self.added().drop_last() =~= old(self).added());
        }
    }

    /// Adds an item.
    pub fn add_item(
        &mut self,
        id: u32,
        text: &str,
        key: Option<&HotKey>,
        selected: Option<bool>,
        enabled: bool,
    )
        ensures
            final(self).shown_by() == old(self).shown_by(),
            final(self).is_popup() == old(self).is_popup(),
            final(self).added().len() == old(self).added().len() + 1,
            final(self).added().drop_last() == old(self).added(),
            final(self).added().last() matches MenuEntry::Item {
                id: number,
                text: shown,
                key: hot_key,
                selected: is_selected,
                enabled: can_be_chosen,
            } && number == id && shown@ == text@ && hot_key == (match key {
                Some(key) => Some(*key),
                None => None,
            }) && is_selected == selected && can_be_chosen == enabled,
    {
        let key = match key {
            Some(key) => Some(*key),
            None => None,
        };
        self.entries.push(MenuEntry::Item { id, text: text.to_owned(), key, selected, enabled });
        assert(self.added().drop_last() =~= old(self).added());
    }

    /// Adds a separator.
    pub fn add_separator(&mut self)
        ensures
            final(self).shown_by() == old(self).shown_by(),
            final(self).is_popup() == old(self).is_popup(),
            final(self).added() == old(self).added().push(MenuEntry::Separator),
    {
        self.entries.push(MenuEntry::Separator);
    }

    /// Whether a window of a backend shows the menu. A menu for another backend is left out.
    pub fn fits(&self, backend: Backend) -> (fits: bool)
        ensures
            fits == (self.shown_by() == backend),
    {
        self.backend == backend
    }
}

/// A cursor that the application made, for the backend that shows it.
#[derive(Clone, Copy, Debug, PartialEq, Eq, Structural)]
pub enum CustomCursor {
    X11(u32),
    Wayland(u64),
}

impl CustomCursor {
    /// The cursor, which has to be one for X11.
    pub fn unwrap_x11(&self) -> (cursor: u32)
        requires
            *self is X11,
        ensures
            *self == CustomCursor::X11(cursor),
    {
        match self {
            CustomCursor::X11(cursor) => *cursor,
            CustomCursor::Wayland(_) => vstd::pervasive::unreached(),
        }
    }
}

/// A window, by what its backend calls it.
#[derive(Clone, Copy, Debug, PartialEq, Eq, Structural)]
pub enum WindowHandle {
    X11(u32),
    Wayland(u64),
    /// A handle that belongs to no window yet.
    Uninitialised,
}

impl Default for WindowHandle {
    fn default() -> (handle: WindowHandle)
        ensures
            handle == WindowHandle::Uninitialised,
    {
        WindowHandle::Uninitialised
    }
}

impl WindowHandle {
    /// The backend that does what is asked of the window.
    pub open spec fn served_by(self) -> Backend {
        if self is X11 {
            Backend::X11
        } else {
            Backend::Wayland
        }
    }

    /// A window that is not initialised aside, a window is served by the backend that named it.
    pub proof fn law_windows_stay_with_their_backend(self)
        requires
            self !is Uninitialised,
        ensures
            (self.served_by() is X11) == (self is X11),
            (self.served_by() is Wayland) == (self is Wayland),
    {
    }

    /// The backend that does what is asked of the window. The handle has to belong to a window.
    pub fn backend(&self) -> (backend: Backend)
        requires
            *self !is Uninitialised,
        ensures
            backend == self.served_by(),
    {
        match self {
            WindowHandle::X11(_) => Backend::X11,
            _ => Backend::Wayland,
        }
    }

    /// The window, which has to be one of X11.
    pub fn unwrap_x11(&self) -> (id: u32)
        requires
            *self is X11,
        ensures
            *self == WindowHandle::X11(id),
    {
        match self {
            WindowHandle::X11(id) => *id,
            _ => vstd::pervasive::unreached(),
        }
    }
}

} // verus!
