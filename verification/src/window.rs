//! Windows: how they are described, named and created.

use vstd::prelude::*;

use crate::util::Counter;

verus! {

/// The unique identifier of a platform window
///
/// This is passed to the methods of your handler, allowing
/// them to identify which window they refer to.
/// If you have multiple windows, you can obtain the id of each window
/// as you create them using [`WindowDescription::assign_id`]
#[derive(Clone, Copy, Debug, PartialEq, Eq, Structural, Hash)]
pub struct WindowId {
    raw: u64,
}

impl WindowId {
    /// The number behind the id.
    pub closed spec fn number(self) -> u64 {
        self.raw
    }

    /// No window has the number 0.
    #[verifier::type_invariant]
    pub closed spec fn wf(self) -> bool {
        self.raw != 0
    }

    /// An id that no window has yet.
    pub fn next(counter: &mut Counter) -> (id: WindowId)
        ensures
            id.number() == id_from(old(counter)@),
            final(counter)@ == crate::util::after(id.number()),
    {
        WindowId { raw: counter.next_nonzero() }
    }

    /// The number behind the id.
    pub fn to_raw(self) -> (raw: u64)
        ensures
            raw == self.number(),
            raw != 0,
    {
        proof {
            use_type_invariant(&self);
        }
        self.raw
    }
}

/// A guaranteed unique [`WindowId`]. It cannot be copied.
#[derive(Debug)]
pub struct NewWindowId(WindowId);

impl NewWindowId {
    /// The id that this holds.
    pub closed spec fn held(self) -> WindowId {
        self.0
    }

    /// Get the actual WindowId
    pub fn id(&self) -> (id: WindowId)
        ensures
            id == self.held(),
    {
        self.0
    }

    /// A new id.
    pub fn next(counter: &mut Counter) -> (id: NewWindowId)
        ensures
            id.held().number() == id_from(old(counter)@),
            final(counter)@ == crate::util::after(id.held().number()),
    {
        NewWindowId(WindowId::next(counter))
    }
}

/// The number of the id that a counter hands out.
pub open spec fn id_from(counter: u64) -> u64 {
    if counter == 0 {
        1
    } else {
        counter
    }
}

/// The number of the id that a counter hands out after some others.
pub open spec fn later_id(counter: u64, others: nat) -> u64
    decreases others,
{
    if others == 0 {
        id_from(counter)
    } else {
        id_from(crate::util::after(later_id(counter, (others - 1) as nat)))
    }
}

/// Ids count up, and begin again at 1 after the largest.
proof fn lemma_later_id(counter: u64, others: nat)
    ensures
        later_id(counter, others) == (id_from(counter) - 1 + others) % 0xffff_ffff_ffff_ffff + 1,
    decreases others,
{
    if others > 0 {
        lemma_later_id(counter, (others - 1) as nat);
    }
}

/// Ids are unique: two that are handed out with fewer than 2^64 - 1 steps between them differ, and
/// none is zero.
pub proof fn law_ids_are_unique(counter: u64, first: nat, second: nat)
    requires
        first < second < first + 0xffff_ffff_ffff_ffff,
    ensures
        later_id(counter, first) != later_id(counter, second),
        later_id(counter, first) != 0,
{
    lemma_later_id(counter, first);
    lemma_later_id(counter, second);
}

/// The properties which will be used when creating a window
#[derive(Debug)]
pub struct WindowDescription {
    pub title: String,
    pub resizable: bool,
    pub show_titlebar: bool,
    pub transparent: bool,
    /// The identifier the window created from this descriptor will be assigned.
    ///
    /// In most cases you should leave this as `None`. If you do need access
    /// to the id of the window, the helper method [`Self::assign_id`] can be used to
    /// obtain it
    ///
    /// The type [`NewWindowId`] is used here to disallow multiple windows to
    /// have the same id
    pub id: Option<NewWindowId>,
}

impl WindowDescription {
    /// Create a new WindowDescription with the given title
    pub fn new(title: &str) -> (desc: WindowDescription)
        ensures
            desc.title@ == title@,
            desc.resizable,
            desc.show_titlebar,
            !desc.transparent,
            desc.id is None,
    {
        WindowDescription {
            title: title.to_owned(),
            resizable: true,
            show_titlebar: true,
            transparent: false,
            id: None,
        }
    }

    /// Get the id which will be used for this window when it is created.
    ///
    /// This may create a new identifier, if there wasn't one previously assigned
    pub fn assign_id(&mut self, counter: &mut Counter) -> (id: WindowId)
        ensures
            final(self).id matches Some(held) && held.held() == id,
            old(self).id matches Some(held) ==> id == held.held() && final(self).id == old(self).id
                && final(counter)@ == old(counter)@,
            old(self).id is None ==> id.number() == id_from(old(counter)@) && final(counter)@
                == crate::util::after(id.number()),
            final(self).title == old(self).title,
            final(self).resizable == old(self).resizable,
            final(self).show_titlebar == old(self).show_titlebar,
            final(self).transparent == old(self).transparent,
    {
        match &self.id {
            Some(held) => held.id(),
            None => {
                let fresh = NewWindowId::next(counter);
                let id = fresh.id();
                self.id = Some(fresh);
                id
            },
        }
    }
}

impl Default for WindowDescription {
    fn default() -> (desc: WindowDescription)
        ensures
            desc.title@ == "Glazier Application Window"@,
            desc.resizable,
            desc.show_titlebar,
            !desc.transparent,
            desc.id is None,
    {
        WindowDescription::new("Glazier Application Window")
    }
}

/// A token that uniquely identifies a idle schedule.
#[derive(Clone, Copy, Debug, PartialEq, Eq, Structural, Hash)]
pub struct IdleToken(usize);

impl IdleToken {
    /// The number that the token was made with.
    pub closed spec fn raw(self) -> usize {
        self.0
    }

    /// Create a new `IdleToken` with the given raw `usize` id.
    pub fn new(raw: usize) -> (token: IdleToken)
        ensures
            token.raw() == raw,
    {
        IdleToken(raw)
    }
}

/// A token that uniquely identifies a running timer.
#[derive(Clone, Copy, Debug, PartialEq, Eq, Structural, Hash)]
pub struct TimerToken(pub u64);

/// A token that uniquely identifies a file dialog request.
#[derive(Clone, Copy, Debug, PartialEq, Eq, Structural, Hash)]
pub struct FileDialogToken(pub u64);

/// Levels in the window system - Z order for display purposes.
/// Describes the purpose of a window and should be mapped appropriately to match platform
/// conventions.
#[derive(Clone, Copy, Debug, PartialEq, Eq, Structural)]
pub enum WindowLevel {
    /// A top level app window.
    AppWindow,
    /// A window that should stay above app windows - like a tooltip
    Tooltip(WindowId),
    /// A user interface element such as a dropdown menu or combo box
    DropDown(WindowId),
    /// A modal dialog
    Modal(WindowId),
}

impl WindowLevel {
    /// The window that this one belongs to.
    pub open spec fn owner(self) -> Option<WindowId> {
        match self {
            WindowLevel::AppWindow => None,
            WindowLevel::Tooltip(parent) => Some(parent),
            WindowLevel::DropDown(parent) => Some(parent),
            WindowLevel::Modal(parent) => Some(parent),
        }
    }

    /// The window that this one belongs to.
    pub fn parent(&self) -> (parent: Option<WindowId>)
        ensures
            parent == self.owner(),
    {
        match self {
            WindowLevel::AppWindow => None,
            WindowLevel::Tooltip(parent) => Some(*parent),
            WindowLevel::DropDown(parent) => Some(*parent),
            WindowLevel::Modal(parent) => Some(*parent),
        }
    }

    /// The level as text, for logging, without the parent.
    pub fn debug_text(&self) -> (text: String)
        ensures
            text@ == match *self {
                WindowLevel::AppWindow => "AppWindow"@,
                WindowLevel::Tooltip(_) => "Tooltip"@,
                WindowLevel::DropDown(_) => "DropDown"@,
                WindowLevel::Modal(_) => "Modal"@,
            },
    {
        match self {
            WindowLevel::AppWindow => "AppWindow".to_owned(),
            WindowLevel::Tooltip(_) => "Tooltip".to_owned(),
            WindowLevel::DropDown(_) => "DropDown".to_owned(),
            WindowLevel::Modal(_) => "Modal".to_owned(),
        }
    }
}

/// What can go wrong when a window is created: what the backend says.
#[derive(Clone, Copy, Debug, PartialEq, Eq)]
pub enum WindowCreationError<E> {
    Backend(E),
}

/// Contains the different states a Window can be in.
#[derive(Clone, Copy, Debug, PartialEq, Eq, Structural)]
pub enum WindowState {
    Maximized,
    Minimized,
    Restored,
}

/// Only a window of the application belongs to no other window.
pub proof fn law_owned_windows_name_their_owner(level: WindowLevel, parent: WindowId)
    ensures
        (level.owner() is None) == (level is AppWindow),
        level == WindowLevel::Tooltip(parent) || level == WindowLevel::DropDown(parent) || level
            == WindowLevel::Modal(parent) ==> level.owner() == Some(parent),
{
}

} // verus!
