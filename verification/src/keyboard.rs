//! Keyboard events.

use vstd::prelude::*;

use crate::bits;

verus! {

/// Pressed modifier keys, one bit for each.
#[derive(Clone, Copy, Debug, PartialEq, Eq, Structural, Hash)]
pub struct Modifiers {
    pub bits: u32,
}

impl Modifiers {
    pub const ALT: u32 = 0x01;

    pub const CAPS_LOCK: u32 = 0x04;

    pub const CONTROL: u32 = 0x08;

    pub const META: u32 = 0x40;

    pub const NUM_LOCK: u32 = 0x80;

    pub const SCROLL_LOCK: u32 = 0x100;

    pub const SHIFT: u32 = 0x200;

    pub const SUPER: u32 = 0x2000;

    /// Whether the modifier with bit `flag` is pressed.
    pub open spec fn has(self, flag: u32) -> bool {
        bits::any32(self.bits, flag)
    }

    /// The modifiers with exactly the given bits.
    pub open spec fn of(flags: u32) -> Modifiers {
        Modifiers { bits: flags }
    }

    /// No modifier is pressed.
    pub fn empty() -> (mods: Modifiers)
        ensures
            mods == Modifiers::of(0),
            forall|flag: u32| !mods.has(flag),
    {
        proof {
            assert forall|flag: u32| !#[trigger] Modifiers::of(0).has(flag) by {
                assert(0u32 & flag == 0) by (bit_vector);
            }
        }
        Modifiers { bits: 0 }
    }

    /// Whether every bit of `flags` is set.
    pub fn contains(self, flags: u32) -> (all: bool)
        ensures
            all == (self.bits & flags == flags),
    {
        self.bits & flags == flags
    }

    /// Adds the modifiers with the bits in `flags`.
    pub fn insert(&mut self, flags: u32)
        ensures
            final(self).bits == old(self).bits | flags,
            forall|flag: u32| #[trigger]
                final(self).has(flag) <==> old(self).has(flag) || bits::any32(flags, flag),
    {
        proof {
            assert forall|flag: u32| #[trigger]
                Modifiers::of(self.bits | flags).has(flag) <==> self.has(flag) || bits::any32(
                    flags,
                    flag,
                ) by {
                bits::lemma_or32(self.bits, flags, flag);
            }
        }
        self.bits = self.bits | flags;
        assert(*self == Modifiers::of(old(self).bits | flags));
    }

    /// Removes the modifiers with the bits in `flags`.
    pub fn remove(&mut self, flags: u32)
        ensures
            final(self).bits == old(self).bits & !flags,
    {
        self.bits = self.bits & !flags;
    }

    /// Adds the modifiers in `flags`, or removes them.
    pub fn set(&mut self, flags: u32, value: bool)
        ensures
            final(self).bits == (if value {
                old(self).bits | flags
            } else {
                old(self).bits & !flags
            }),
    {
        if value {
            self.insert(flags);
        } else {
            self.remove(flags);
        }
    }

    pub fn shift(self) -> (pressed: bool)
        ensures
            pressed == self.has(Self::SHIFT),
    {
        self.bits & Self::SHIFT != 0
    }

    pub fn ctrl(self) -> (pressed: bool)
        ensures
            pressed == self.has(Self::CONTROL),
    {
        self.bits & Self::CONTROL != 0
    }

    pub fn alt(self) -> (pressed: bool)
        ensures
            pressed == self.has(Self::ALT),
    {
        self.bits & Self::ALT != 0
    }

    pub fn meta(self) -> (pressed: bool)
        ensures
            pressed == self.has(Self::META),
    {
        self.bits & Self::META != 0
    }
}

/// Whether a key went down or up.
#[derive(Clone, Copy, Debug, PartialEq, Eq, Structural, Hash)]
pub enum KeyState {
    Down,
    Up,
}

/// Which of several keys with the same meaning was used.
#[derive(Clone, Copy, Debug, PartialEq, Eq, Structural, Hash)]
pub enum Location {
    Standard,
    Left,
    Right,
    Numpad,
}

/// A physical key position.
#[derive(Clone, Copy, Debug, PartialEq, Eq, Structural, Hash)]
pub enum Code {
    /// The position has no name.
    Unidentified,
    /// The position with this index in the list of named positions.
    Named(u16),
}

/// The meaning of a key.
#[derive(Clone, Debug)]
pub enum KbKey {
    /// The key types this text.
    Character(String),
    /// The meaning is not known.
    Unidentified,
    ArrowLeft,
    ArrowRight,
    ArrowUp,
    ArrowDown,
    Backspace,
    Delete,
    Enter,
    Tab,
    Home,
    End,
    PageUp,
    PageDown,
    Alt,
    F10,
    /// Any other key, by its index in the list of named keys.
    Named(u16),
}

impl KbKey {
    /// The text that the key types, empty for a key that types none.
    pub open spec fn typed(self) -> Seq<char> {
        match self {
            KbKey::Character(text) => text@,
            _ => Seq::empty(),
        }
    }

    /// The same key, compared by the text that it types.
    pub open spec fn same(self, other: KbKey) -> bool {
        match (self, other) {
            (KbKey::Character(a), KbKey::Character(b)) => a@ == b@,
            (KbKey::Character(_), _) => false,
            (_, KbKey::Character(_)) => false,
            (a, b) => a == b,
        }
    }

    /// A copy of the key.
    pub fn copy(&self) -> (key: KbKey)
        ensures
            key.same(*self),
            key.typed() == self.typed(),
    {
        match self {
            KbKey::Character(text) => KbKey::Character(text.clone()),
            KbKey::Unidentified => KbKey::Unidentified,
            KbKey::ArrowLeft => KbKey::ArrowLeft,
            KbKey::ArrowRight => KbKey::ArrowRight,
            KbKey::ArrowUp => KbKey::ArrowUp,
            KbKey::ArrowDown => KbKey::ArrowDown,
            KbKey::Backspace => KbKey::Backspace,
            KbKey::Delete => KbKey::Delete,
            KbKey::Enter => KbKey::Enter,
            KbKey::Tab => KbKey::Tab,
            KbKey::Home => KbKey::Home,
            KbKey::End => KbKey::End,
            KbKey::PageUp => KbKey::PageUp,
            KbKey::PageDown => KbKey::PageDown,
            KbKey::Alt => KbKey::Alt,
            KbKey::F10 => KbKey::F10,
            KbKey::Named(index) => KbKey::Named(*index),
        }
    }
}

/// A keyboard event.
#[derive(Clone, Debug)]
pub struct KeyEvent {
    /// Whether the key is pressed or released.
    pub state: KeyState,
    /// Logical key value.
    pub key: KbKey,
    /// Physical key position.
    pub code: Code,
    /// Location for keys with multiple instances on common keyboards.
    pub location: Location,
    /// Flags for pressed modifier keys.
    pub mods: Modifiers,
    /// True if the key is currently auto-repeated.
    pub repeat: bool,
    /// Events with this flag should be ignored in a text editor
    /// and instead composition events should be used.
    pub is_composing: bool,
}

/// Things that name a key.
pub trait IntoKey: Sized {
    /// Whether this value names `key`.
    spec fn names(self, key: KbKey) -> bool;

    fn into_key(self) -> (key: KbKey)
        ensures
            self.names(key),
    ;
}

impl IntoKey for KbKey {
    open spec fn names(self, key: KbKey) -> bool {
        key == self
    }

    fn into_key(self) -> (key: KbKey) {
        self
    }
}

impl IntoKey for &str {
    open spec fn names(self, key: KbKey) -> bool {
        key is Character && key.typed() == self@
    }

    fn into_key(self) -> (key: KbKey) {
        KbKey::Character(self.to_owned())
    }
}

impl KeyEvent {
    /// Create a key event for testing purposes: a plain press of `key` with `mods` held.
    pub fn for_test<K: IntoKey>(mods: Modifiers, key: K) -> (event: KeyEvent)
        ensures
            key.names(event.key),
            event.mods == mods,
            event.code == Code::Unidentified,
            event.location == Location::Standard,
            event.state == KeyState::Down,
            !event.is_composing,
            !event.repeat,
    {
        KeyEvent {
            key: key.into_key(),
            code: Code::Unidentified,
            location: Location::Standard,
            state: KeyState::Down,
            mods,
            is_composing: false,
            repeat: false,
        }
    }
}

/// Keys that are the same type the same text, and keys that type nothing are the same only as
/// themselves.
pub proof fn law_same_keys_type_the_same(first: KbKey, second: KbKey)
    ensures
        first.same(first),
        first.same(second) == second.same(first),
        first.same(second) ==> first.typed() == second.typed() && (first is Character) == (
        second is Character),
        first is Character && second is Character ==> first.same(second) == (first.typed()
            == second.typed()),
        first !is Character ==> first.same(second) == (first == second) && first.typed().len() == 0,
{
}

} // verus!
