//! Keyboard shortcuts.
//!
//! A [`KeyboardShortcut`] is the shortcut that the developer of an application means. A [`HotKey`]
//! is what has to be pressed in the layout of the user's keyboard.

use vstd::prelude::*;

use crate::keyboard::{Code, KbKey, KeyEvent, Modifiers};

verus! {

/// The modifiers that tell shortcuts apart: Shift, Control, Alt and Meta. The states of the lock
/// keys do not count.
pub const BASE_MODS: u32 = 0x249;

/// The flag of a modifier, or nothing.
pub open spec fn flag_if(held: bool, flag: u32) -> u32 {
    if held {
        flag
    } else {
        0
    }
}

/// The modifiers that tell shortcuts apart are Shift, Control, Alt and Meta, and no other.
pub proof fn law_base_mods()
    ensures
        BASE_MODS == Modifiers::SHIFT | Modifiers::CONTROL | Modifiers::ALT | Modifiers::META,
        BASE_MODS & (Modifiers::CAPS_LOCK | Modifiers::NUM_LOCK | Modifiers::SCROLL_LOCK) == 0,
{
    assert(0x249u32 == 0x200u32 | 0x08 | 0x01 | 0x40 && 0x249u32 & (0x04u32 | 0x80 | 0x100) == 0)
        by (bit_vector);
}

/// Instructions for creating a [`HotKey`] that do not depend on a layout.
#[derive(Debug)]
pub enum KeyboardShortcut {
    /// This kind of shortcut is based on the specific character being typed.
    CharacterBased {
        /// The modifiers which must be pressed alongside this character.
        ///
        /// The use of the Shift modifier should be avoided for non-alphabetical shortcuts.
        modifiers: RawMods,
        primary: Option<KbKey>,
    },
    /// A keyboard shortcut which depends on the physical location on the keyboard.
    KeyCodeBased {
        /// The key which must be pressed.
        keycode: Code,
        modifiers: RawMods,
    },
}

/// What has to be pressed for a shortcut, and how it is shown to a user.
#[derive(Clone, Copy, Debug)]
pub struct HotKey {
    pub code: Code,
    pub modifiers: Modifiers,
    /// The character printed when activating this hotkey.
    pub printable: char,
}

impl HotKey {
    /// Whether an event is for this hotkey.
    pub open spec fn is_for(self, code: Code, mods: Modifiers) -> bool {
        self.modifiers.bits == mods.bits & BASE_MODS && self.code == code
    }

    /// Returns `true` if this [`KeyEvent`] matches this `HotKey`.
    pub fn matches(&self, event: &KeyEvent) -> (yes: bool)
        ensures
            yes == self.is_for(event.code, event.mods),
    {
        self.modifiers.bits == event.mods.bits & BASE_MODS && self.code == event.code
    }
}

/// Lock keys do not change which hotkeys an event matches.
pub proof fn law_locks_do_not_matter(key: HotKey, code: Code, mods: Modifiers, locked: u32)
    requires
        locked & BASE_MODS == 0,
    ensures
        key.is_for(code, Modifiers::of(mods.bits | locked)) == key.is_for(code, mods),
{
    let bits = mods.bits;
    assert((bits | locked) & 0x249 == bits & 0x249) by (bit_vector)
        requires
            locked & 0x249 == 0,
    ;
}

/// An event matches at most the hotkeys that have the same key and the same modifiers.
pub proof fn law_matching_hotkeys_agree(first: HotKey, second: HotKey, code: Code, mods: Modifiers)
    requires
        first.is_for(code, mods),
        second.is_for(code, mods),
    ensures
        first.code == second.code,
        first.modifiers == second.modifiers,
{
}

/// A keyboard layout, used to convert [`KeyboardShortcut`]s into [`HotKey`]s.
#[derive(Clone, Copy, Debug)]
pub struct KeyboardLayout {
    pub force_qwerty_fallback: bool,
}

/// A platform-agnostic representation of keyboard modifiers, for command handling.
///
/// This does one thing: it allows specifying hotkeys that use the Command key
/// on macOS, but use the Ctrl key on other platforms.
#[derive(Clone, Copy, Debug, PartialEq, Eq, Structural)]
pub enum SysMods {
    NoMods,
    Shift,
    /// Command on macOS, and Ctrl on windows/linux/OpenBSD.
    Cmd,
    /// Command + Alt on macOS, Ctrl + Alt on windows/linux/OpenBSD.
    AltCmd,
    /// Command + Shift on macOS, Ctrl + Shift on windows/linux/OpenBSD.
    CmdShift,
    /// Command + Alt + Shift on macOS, Ctrl + Alt + Shift on windows/linux/OpenBSD.
    AltCmdShift,
}

impl SysMods {
    /// Whether the Command key of the platform is part of these.
    pub open spec fn command(self) -> bool {
        self is Cmd || self is AltCmd || self is CmdShift || self is AltCmdShift
    }

    pub open spec fn alt(self) -> bool {
        self is AltCmd || self is AltCmdShift
    }

    pub open spec fn shift(self) -> bool {
        self is Shift || self is CmdShift || self is AltCmdShift
    }

    /// The modifiers for a platform: Meta stands for Command on macOS, and Ctrl elsewhere.
    pub open spec fn raw_on(self, macos: bool) -> RawMods {
        match self {
            SysMods::NoMods => RawMods::NoMods,
            SysMods::Shift => RawMods::Shift,
            SysMods::Cmd => if macos {
                RawMods::Meta
            } else {
                RawMods::Ctrl
            },
            SysMods::AltCmd => if macos {
                RawMods::AltMeta
            } else {
                RawMods::AltCtrl
            },
            SysMods::CmdShift => if macos {
                RawMods::MetaShift
            } else {
                RawMods::CtrlShift
            },
            SysMods::AltCmdShift => if macos {
                RawMods::AltMetaShift
            } else {
                RawMods::AltCtrlShift
            },
        }
    }

    /// The modifiers for a platform.
    pub fn on_platform(self, macos: bool) -> (raw: RawMods)
        ensures
            raw == self.raw_on(macos),
    {
        if macos {
            match self {
                SysMods::NoMods => RawMods::NoMods,
                SysMods::Shift => RawMods::Shift,
                SysMods::Cmd => RawMods::Meta,
                SysMods::AltCmd => RawMods::AltMeta,
                SysMods::CmdShift => RawMods::MetaShift,
                SysMods::AltCmdShift => RawMods::AltMetaShift,
            }
        } else {
            match self {
                SysMods::NoMods => RawMods::NoMods,
                SysMods::Shift => RawMods::Shift,
                SysMods::Cmd => RawMods::Ctrl,
                SysMods::AltCmd => RawMods::AltCtrl,
                SysMods::CmdShift => RawMods::CtrlShift,
                SysMods::AltCmdShift => RawMods::AltCtrlShift,
            }
        }
    }
}

/// The Command key is Meta on macOS and Ctrl elsewhere; Alt and Shift are the same everywhere.
pub proof fn law_command_key(mods: SysMods, macos: bool)
    ensures
        mods.raw_on(macos).meta() == (macos && mods.command()),
        mods.raw_on(macos).ctrl() == (!macos && mods.command()),
        mods.raw_on(macos).alt() == mods.alt(),
        mods.raw_on(macos).shift() == mods.shift(),
{
}

/// A representation of the active modifier keys.
///
/// This is intended to be clearer than `Modifiers`, when describing hotkeys.
#[derive(Clone, Copy, Debug, PartialEq, Eq, Structural)]
pub enum RawMods {
    NoMods,
    Alt,
    Ctrl,
    Meta,
    Shift,
    AltCtrl,
    AltMeta,
    AltShift,
    CtrlShift,
    CtrlMeta,
    MetaShift,
    AltCtrlMeta,
    AltCtrlShift,
    AltMetaShift,
    CtrlMetaShift,
    AltCtrlMetaShift,
}

impl RawMods {
    pub open spec fn alt(self) -> bool {
        match self {
            RawMods::Alt
            | RawMods::AltCtrl
            | RawMods::AltMeta
            | RawMods::AltShift
            | RawMods::AltCtrlMeta
            | RawMods::AltCtrlShift
            | RawMods::AltMetaShift
            | RawMods::AltCtrlMetaShift => true,
            _ => false,
        }
    }

    pub open spec fn ctrl(self) -> bool {
        match self {
            RawMods::Ctrl
            | RawMods::AltCtrl
            | RawMods::CtrlShift
            | RawMods::CtrlMeta
            | RawMods::AltCtrlMeta
            | RawMods::AltCtrlShift
            | RawMods::CtrlMetaShift
            | RawMods::AltCtrlMetaShift => true,
            _ => false,
        }
    }

    pub open spec fn meta(self) -> bool {
        match self {
            RawMods::Meta
            | RawMods::AltMeta
            | RawMods::CtrlMeta
            | RawMods::MetaShift
            | RawMods::AltCtrlMeta
            | RawMods::AltMetaShift
            | RawMods::CtrlMetaShift
            | RawMods::AltCtrlMetaShift => true,
            _ => false,
        }
    }

    pub open spec fn shift(self) -> bool {
        match self {
            RawMods::Shift
            | RawMods::AltShift
            | RawMods::CtrlShift
            | RawMods::MetaShift
            | RawMods::AltCtrlShift
            | RawMods::AltMetaShift
            | RawMods::CtrlMetaShift
            | RawMods::AltCtrlMetaShift => true,
            _ => false,
        }
    }

    /// The same modifiers, one bit for each.
    pub open spec fn flags(self) -> Modifiers {
        Modifiers::of(
            flag_if(self.alt(), Modifiers::ALT) | flag_if(self.ctrl(), Modifiers::CONTROL)
                | flag_if(self.meta(), Modifiers::META) | flag_if(self.shift(), Modifiers::SHIFT),
        )
    }
}

/// The bits of modifiers say which of them are held.
pub proof fn lemma_flags(alt: bool, ctrl: bool, meta: bool, shift: bool)
    ensures
        ({
            let bits = flag_if(alt, Modifiers::ALT) | flag_if(ctrl, Modifiers::CONTROL) | flag_if(
                meta,
                Modifiers::META,
            ) | flag_if(shift, Modifiers::SHIFT);
            &&& (bits & Modifiers::ALT != 0) == alt
            &&& (bits & Modifiers::CONTROL != 0) == ctrl
            &&& (bits & Modifiers::META != 0) == meta
            &&& (bits & Modifiers::SHIFT != 0) == shift
            &&& bits & BASE_MODS == bits
        }),
{
    let a = flag_if(alt, Modifiers::ALT);
    let c = flag_if(ctrl, Modifiers::CONTROL);
    let m = flag_if(meta, Modifiers::META);
    let s = flag_if(shift, Modifiers::SHIFT);
    let bits = a | c | m | s;
    assert((bits & 0x01 != 0) == (a == 0x01) && (bits & 0x08 != 0) == (c == 0x08) && (bits & 0x40
        != 0) == (m == 0x40) && (bits & 0x200 != 0) == (s == 0x200) && bits & 0x249 == bits)
        by (bit_vector)
        requires
            bits == a | c | m | s,
            a == 0 || a == 0x01,
            c == 0 || c == 0x08,
            m == 0 || m == 0x40,
            s == 0 || s == 0x200,
    ;
}

/// A representation of modifiers and the bits say the same: each modifier is held in both or in
/// neither.
pub proof fn law_flags_hold_each_modifier(mods: RawMods)
    ensures
        mods.flags().has(Modifiers::ALT) == mods.alt(),
        mods.flags().has(Modifiers::CONTROL) == mods.ctrl(),
        mods.flags().has(Modifiers::META) == mods.meta(),
        mods.flags().has(Modifiers::SHIFT) == mods.shift(),
        mods.flags().bits & BASE_MODS == mods.flags().bits,
{
    lemma_flags(mods.alt(), mods.ctrl(), mods.meta(), mods.shift());
}

/// Different representations stand for different modifiers.
pub proof fn law_representations_differ(first: RawMods, second: RawMods)
    requires
        first.flags() == second.flags(),
    ensures
        first == second,
{
    law_flags_hold_each_modifier(first);
    law_flags_hold_each_modifier(second);
}

impl vstd::std_specs::convert::FromSpecImpl<RawMods> for Modifiers {
    open spec fn obeys_from_spec() -> bool {
        true
    }

    open spec fn from_spec(src: RawMods) -> Modifiers {
        src.flags()
    }
}

impl From<RawMods> for Modifiers {
    fn from(src: RawMods) -> (mods: Modifiers) {
        let (alt, ctrl, meta, shift) = match src {
            RawMods::NoMods => (false, false, false, false),
            RawMods::Alt => (true, false, false, false),
            RawMods::Ctrl => (false, true, false, false),
            RawMods::Meta => (false, false, true, false),
            RawMods::Shift => (false, false, false, true),
            RawMods::AltCtrl => (true, true, false, false),
            RawMods::AltMeta => (true, false, true, false),
            RawMods::AltShift => (true, false, false, true),
            RawMods::CtrlMeta => (false, true, true, false),
            RawMods::CtrlShift => (false, true, false, true),
            RawMods::MetaShift => (false, false, true, true),
            RawMods::AltCtrlMeta => (true, true, true, false),
            RawMods::AltMetaShift => (true, false, true, true),
            RawMods::AltCtrlShift => (true, true, false, true),
            RawMods::CtrlMetaShift => (false, true, true, true),
            RawMods::AltCtrlMetaShift => (true, true, true, true),
        };
        let mut mods = Modifiers::empty();
        mods.set(Modifiers::ALT, alt);
        let ghost first = mods.bits;
        mods.set(Modifiers::CONTROL, ctrl);
        let ghost second = mods.bits;
        mods.set(Modifiers::META, meta);
        let ghost third = mods.bits;
        mods.set(Modifiers::SHIFT, shift);
        let ghost fourth = mods.bits;
        proof {
            let (a, c, m, s) = (
                flag_if(alt, Modifiers::ALT),
                flag_if(ctrl, Modifiers::CONTROL),
                flag_if(meta, Modifiers::META),
                flag_if(shift, Modifiers::SHIFT),
            );
            assert(fourth == a | c | m | s) by (bit_vector)
                requires
                    first == (if alt { 0u32 | 0x01 } else { 0u32 & !0x01u32 }),
                    second == (if ctrl { first | 0x08 } else { first & !0x08u32 }),
                    third == (if meta { second | 0x40 } else { second & !0x40u32 }),
                    fourth == (if shift { third | 0x200 } else { third & !0x200u32 }),
                    a == (if alt { 0x01u32 } else { 0 }),
                    c == (if ctrl { 0x08u32 } else { 0 }),
                    m == (if meta { 0x40u32 } else { 0 }),
                    s == (if shift { 0x200u32 } else { 0 }),
            ;
        }
        mods
    }
}

impl vstd::std_specs::convert::FromSpecImpl<SysMods> for RawMods {
    open spec fn obeys_from_spec() -> bool {
        true
    }

    open spec fn from_spec(src: SysMods) -> RawMods {
        src.raw_on(false)
    }
}

/// The modifiers on windows, linux and OpenBSD, where Ctrl stands for Command.
impl From<SysMods> for RawMods {
    fn from(src: SysMods) -> (raw: RawMods) {
        src.on_platform(false)
    }
}

impl vstd::std_specs::convert::FromSpecImpl<SysMods> for Option<RawMods> {
    open spec fn obeys_from_spec() -> bool {
        true
    }

    open spec fn from_spec(src: SysMods) -> Option<RawMods> {
        Some(src.raw_on(false))
    }
}

impl From<SysMods> for Option<RawMods> {
    fn from(src: SysMods) -> (raw: Option<RawMods>) {
        Some(src.on_platform(false))
    }
}

impl vstd::std_specs::cmp::PartialEqSpecImpl<Modifiers> for RawMods {
    open spec fn obeys_eq_spec() -> bool {
        true
    }

    open spec fn eq_spec(&self, other: &Modifiers) -> bool {
        self.flags() == *other
    }
}

impl PartialEq<Modifiers> for RawMods {
    fn eq(&self, other: &Modifiers) -> (equal: bool) {
        let mods: Modifiers = Modifiers::from(*self);
        mods == *other
    }
}

impl vstd::std_specs::cmp::PartialEqSpecImpl<RawMods> for Modifiers {
    open spec fn obeys_eq_spec() -> bool {
        true
    }

    open spec fn eq_spec(&self, other: &RawMods) -> bool {
        other.flags() == *self
    }
}

impl PartialEq<RawMods> for Modifiers {
    fn eq(&self, other: &RawMods) -> (equal: bool) {
        let mods: Modifiers = Modifiers::from(*other);
        mods == *self
    }
}

impl vstd::std_specs::cmp::PartialEqSpecImpl<Modifiers> for SysMods {
    open spec fn obeys_eq_spec() -> bool {
        true
    }

    open spec fn eq_spec(&self, other: &Modifiers) -> bool {
        self.raw_on(false).flags() == *other
    }
}

impl PartialEq<Modifiers> for SysMods {
    fn eq(&self, other: &Modifiers) -> (equal: bool) {
        let mods: Modifiers = Modifiers::from(self.on_platform(false));
        mods == *other
    }
}

impl vstd::std_specs::cmp::PartialEqSpecImpl<SysMods> for Modifiers {
    open spec fn obeys_eq_spec() -> bool {
        true
    }

    open spec fn eq_spec(&self, other: &SysMods) -> bool {
        other.raw_on(false).flags() == *self
    }
}

impl PartialEq<SysMods> for Modifiers {
    fn eq(&self, other: &SysMods) -> (equal: bool) {
        let mods: Modifiers = Modifiers::from(other.on_platform(false));
        mods == *self
    }
}

/// A hotkey is for its own key with its own modifiers held, whatever lock keys are on, and for
/// nothing else: neither another key, nor a modifier more or less.
pub proof fn law_hotkeys_are_for_their_keys(key: HotKey, code: Code, mods: Modifiers)
    requires
        key.modifiers.bits & BASE_MODS == key.modifiers.bits,
    ensures
        key.is_for(key.code, key.modifiers),
        key.is_for(code, mods) == (code == key.code && mods.has(Modifiers::SHIFT)
            == key.modifiers.has(Modifiers::SHIFT) && mods.has(Modifiers::CONTROL)
            == key.modifiers.has(Modifiers::CONTROL) && mods.has(Modifiers::ALT)
            == key.modifiers.has(Modifiers::ALT) && mods.has(Modifiers::META)
            == key.modifiers.has(Modifiers::META)),
{
    let own = key.modifiers.bits;
    let held = mods.bits;
    assert((own == held & 0x249) == ((held & 0x200 != 0) == (own & 0x200 != 0) && (held & 0x08 != 0)
        == (own & 0x08 != 0) && (held & 0x01 != 0) == (own & 0x01 != 0) && (held & 0x40 != 0) == (own
        & 0x40 != 0))) by (bit_vector)
        requires
            own & 0x249 == own,
    ;
}

/// Every choice of modifiers has a representation.
pub proof fn law_every_choice_is_represented(alt: bool, ctrl: bool, meta: bool, shift: bool)
    ensures
        exists|mods: RawMods| #[trigger]
            mods.alt() == alt && mods.ctrl() == ctrl && mods.meta() == meta && mods.shift() == shift,
{
    let mods = match (alt, ctrl, meta, shift) {
        (false, false, false, false) => RawMods::NoMods,
        (true, false, false, false) => RawMods::Alt,
        (false, true, false, false) => RawMods::Ctrl,
        (false, false, true, false) => RawMods::Meta,
        (false, false, false, true) => RawMods::Shift,
        (true, true, false, false) => RawMods::AltCtrl,
        (true, false, true, false) => RawMods::AltMeta,
        (true, false, false, true) => RawMods::AltShift,
        (false, true, true, false) => RawMods::CtrlMeta,
        (false, true, false, true) => RawMods::CtrlShift,
        (false, false, true, true) => RawMods::MetaShift,
        (true, true, true, false) => RawMods::AltCtrlMeta,
        (true, false, true, true) => RawMods::AltMetaShift,
        (true, true, false, true) => RawMods::AltCtrlShift,
        (false, true, true, true) => RawMods::CtrlMetaShift,
        (true, true, true, true) => RawMods::AltCtrlMetaShift,
    };
    assert(mods.alt() == alt && mods.ctrl() == ctrl && mods.meta() == meta && mods.shift() == shift);
}

/// A platform tells apart what an application tells apart.
pub proof fn law_platforms_keep_shortcuts_apart(first: SysMods, second: SysMods, macos: bool)
    requires
        first.raw_on(macos) == second.raw_on(macos),
    ensures
        first == second,
{
}

/// The modifiers that an application means, as they are pressed here.
pub open spec fn pressed_here(mods: SysMods) -> RawMods {
    <RawMods as vstd::std_specs::convert::FromSpec<SysMods>>::from_spec(mods)
}

/// Here Ctrl is the Command key, and Meta never is.
pub proof fn law_command_is_control_here(mods: SysMods)
    ensures
        pressed_here(mods).ctrl() == mods.command(),
        !pressed_here(mods).meta(),
        pressed_here(mods).alt() == mods.alt(),
        pressed_here(mods).shift() == mods.shift(),
        <Option<RawMods> as vstd::std_specs::convert::FromSpec<SysMods>>::from_spec(mods) == Some(
            pressed_here(mods),
        ),
        <Modifiers as vstd::std_specs::convert::FromSpec<RawMods>>::from_spec(
            pressed_here(mods),
        ).has(Modifiers::CONTROL) == mods.command(),
{
    law_flags_hold_each_modifier(pressed_here(mods));
}

} // verus!
