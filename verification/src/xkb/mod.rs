//! Keyboard handling for platforms that describe their keyboards with xkb.

use vstd::prelude::*;

use crate::keyboard::{Code, KbKey, KeyEvent, KeyState, Location, Modifiers};
use crate::strings;
use crate::text::simulate;
use crate::text::simulate::CompositionResult;
use crate::text::InputHandler;

pub mod compose;

use compose::{ComposeAnswer, ComposeKey, KeyEventsState};

verus! {

/// The positions of the modifiers in a keymap.
#[derive(Clone, Copy, Debug, PartialEq, Eq, Structural)]
pub struct ModsIndices {
    pub control: u32,
    pub shift: u32,
    pub alt: u32,
    pub super_: u32,
    pub caps_lock: u32,
    pub num_lock: u32,
}

/// The modifier and layout state that the window system reports.
#[derive(Clone, Copy, Debug, PartialEq, Eq, Structural)]
pub struct ActiveModifiers {
    pub base_mods: u32,
    pub latched_mods: u32,
    pub locked_mods: u32,
    pub base_layout: u32,
    pub latched_layout: u32,
    pub locked_layout: u32,
}

/// An opaque representation of a KeySym, to make APIs less error prone
#[derive(Clone, Copy, Debug, PartialEq, Eq, Structural)]
pub struct KeySym(pub u32);

/// Which of a keymap's modifiers are in effect, as asked of the keymap one by one.
#[derive(Clone, Copy, Debug, PartialEq, Eq, Structural)]
pub struct EffectiveMods {
    pub control: bool,
    pub shift: bool,
    pub super_: bool,
    pub alt: bool,
    pub caps_lock: bool,
    pub num_lock: bool,
}

impl EffectiveMods {
    /// The bit of `flag` if `active`.
    pub open spec fn bit(active: bool, flag: u32) -> u32 {
        if active {
            flag
        } else {
            0
        }
    }

    /// The modifiers in effect, as bits.
    pub open spec fn flags(self) -> u32 {
        Self::bit(self.control, Modifiers::CONTROL) | Self::bit(self.shift, Modifiers::SHIFT)
            | Self::bit(self.super_, Modifiers::SUPER) | Self::bit(self.alt, Modifiers::ALT)
            | Self::bit(self.caps_lock, Modifiers::CAPS_LOCK) | Self::bit(
            self.num_lock,
            Modifiers::NUM_LOCK,
        )
    }

    /// The modifiers in effect.
    pub fn modifiers(self) -> (mods: Modifiers)
        ensures
            mods == Modifiers::of(self.flags()),
    {
        let mut mods = Modifiers::empty();
        proof {
            assert(forall|a: u32| #[trigger] (a | 0u32) == a) by (bit_vector);
            assert(forall|a: u32| #[trigger] (0u32 | a) == a) by (bit_vector);
        }
        if self.control {
            mods.insert(Modifiers::CONTROL);
        }
        if self.shift {
            mods.insert(Modifiers::SHIFT);
        }
        if self.super_ {
            mods.insert(Modifiers::SUPER);
        }
        if self.alt {
            mods.insert(Modifiers::ALT);
        }
        if self.caps_lock {
            mods.insert(Modifiers::CAPS_LOCK);
        }
        if self.num_lock {
            mods.insert(Modifiers::NUM_LOCK);
        }
        mods
    }

    /// Each modifier that is in effect is reported, and no other.
    pub proof fn law_flags_report_each_modifier(self)
        ensures
            Modifiers::of(self.flags()).has(Modifiers::CONTROL) == self.control,
            Modifiers::of(self.flags()).has(Modifiers::SHIFT) == self.shift,
            Modifiers::of(self.flags()).has(Modifiers::SUPER) == self.super_,
            Modifiers::of(self.flags()).has(Modifiers::ALT) == self.alt,
            Modifiers::of(self.flags()).has(Modifiers::CAPS_LOCK) == self.caps_lock,
            Modifiers::of(self.flags()).has(Modifiers::NUM_LOCK) == self.num_lock,
            !Modifiers::of(self.flags()).has(Modifiers::META),
            !Modifiers::of(self.flags()).has(Modifiers::SCROLL_LOCK),
    {
        let c = Self::bit(self.control, Modifiers::CONTROL);
        let s = Self::bit(self.shift, Modifiers::SHIFT);
        let u = Self::bit(self.super_, Modifiers::SUPER);
        let a = Self::bit(self.alt, Modifiers::ALT);
        let l = Self::bit(self.caps_lock, Modifiers::CAPS_LOCK);
        let n = Self::bit(self.num_lock, Modifiers::NUM_LOCK);
        assert({
            let all = c | s | u | a | l | n;
            &&& (all & 0x8 != 0 <==> c == 0x8)
            &&& (all & 0x200 != 0 <==> s == 0x200)
            &&& (all & 0x2000 != 0 <==> u == 0x2000)
            &&& (all & 0x1 != 0 <==> a == 0x1)
            &&& (all & 0x4 != 0 <==> l == 0x4)
            &&& (all & 0x80 != 0 <==> n == 0x80)
            &&& all & 0x40 == 0
            &&& all & 0x100 == 0
        }) by (bit_vector)
            requires
                c == 0x8 || c == 0,
                s == 0x200 || s == 0,
                u == 0x2000 || u == 0,
                a == 0x1 || a == 0,
                l == 0x4 || l == 0,
                n == 0x80 || n == 0,
        ;
    }
}

/// How severe a message of the keyboard library is.
#[derive(Clone, Copy, Debug, PartialEq, Eq, Structural)]
pub enum XkbLogLevel {
    Critical,
    Error,
    Warning,
    Info,
    Debug,
}

/// How severe a message of this program is.
#[derive(Clone, Copy, Debug, PartialEq, Eq, Structural)]
pub enum LogLevel {
    Error,
    Warn,
    Info,
    Debug,
    Trace,
}

/// The level for the keyboard library that goes with `level`.
pub open spec fn level_above(level: LogLevel) -> XkbLogLevel {
    match level {
        LogLevel::Error => XkbLogLevel::Critical,
        LogLevel::Warn => XkbLogLevel::Error,
        LogLevel::Info => XkbLogLevel::Warning,
        LogLevel::Debug => XkbLogLevel::Info,
        LogLevel::Trace => XkbLogLevel::Debug,
    }
}

/// How much is let through at a level, counted from the most severe.
pub open spec fn depth(level: LogLevel) -> int {
    match level {
        LogLevel::Error => 0,
        LogLevel::Warn => 1,
        LogLevel::Info => 2,
        LogLevel::Debug => 3,
        LogLevel::Trace => 4,
    }
}

/// How much the keyboard library lets through at a level, counted from the most severe.
pub open spec fn xkb_depth(level: XkbLogLevel) -> int {
    match level {
        XkbLogLevel::Critical => 0,
        XkbLogLevel::Error => 1,
        XkbLogLevel::Warning => 2,
        XkbLogLevel::Info => 3,
        XkbLogLevel::Debug => 4,
    }
}

/// The keyboard library lets through as many levels of severity as this program does.
pub proof fn law_levels_keep_their_order(level: LogLevel)
    ensures
        xkb_depth(level_above(level)) == depth(level),
{
}

/// The level for the keyboard library that goes with `level`.
///
/// Because xkb has a `critical` error, each of our levels maps to 1 above (e.g. error ->
/// critical, warn -> error etc.)
pub fn log_level(level: LogLevel) -> (mapped: XkbLogLevel)
    ensures
        mapped == level_above(level),
{
    match level {
        LogLevel::Error => XkbLogLevel::Critical,
        LogLevel::Warn => XkbLogLevel::Error,
        LogLevel::Info => XkbLogLevel::Warning,
        LogLevel::Debug => XkbLogLevel::Info,
        LogLevel::Trace => XkbLogLevel::Debug,
    }
}

/// Whether a keymap's text is terminated: only such a buffer may be handed to xkb.
pub fn is_nul_terminated(buffer: &[u8]) -> (found: bool)
    ensures
        found == buffer@.contains(0u8),
{
    let mut i: usize = 0;
    while i < buffer.len()
        invariant
            i <= buffer.len(),
            forall|j: int| 0 <= j < i ==> buffer@[j] != 0,
        decreases buffer.len() - i,
    {
        if buffer[i] == 0 {
            assert(buffer@[i as int] == 0);
            return true;
        }
        i += 1;
    }
    false
}

/// The character that a keysym stands for, from its UTF-32 value.
///
/// The keysym is converted directly, rather than through the keyboard state, so that the control
/// key does not change it: shortcuts that hold control would otherwise not be recognised. A value
/// of 0 says that there is no such character.
pub fn key_get_char(utf32: u32) -> (ch: Option<char>)
    requires
        vstd::utf8::is_scalar(utf32),
    ensures
        ch is None <==> utf32 == 0,
        ch matches Some(c) ==> c as u32 == utf32,
{
    if utf32 == 0 {
        None
    } else {
        char::from_u32(utf32)
    }
}

/// The text of one character.
pub fn char_text(ch: char) -> (text: String)
    ensures
        text@ == seq![ch],
{
    let mut text = String::new();
    text.push(ch);
    assert(text@ =~= seq![ch]);
    text
}

/// The meaning of a key: what the table of named keys says of its keysym, or else the character
/// that the keysym stands for.
pub fn get_logical_key(mapped: KbKey, utf32: u32) -> (key: KbKey)
    requires
        vstd::utf8::is_scalar(utf32),
    ensures
        means(mapped, utf32, key),
{
    if let KbKey::Unidentified = mapped {
        if let Some(ch) = key_get_char(utf32) {
            return KbKey::Character(char_text(ch));
        }
    }
    mapped
}

/// The index into the table of physical keys for a scan code. Codes beyond the table's index type
/// are unidentified.
pub fn keycode_index(scancode: u32) -> (index: Option<u16>)
    ensures
        scancode <= u16::MAX ==> index == Some(scancode as u16),
        scancode > u16::MAX ==> index is None,
{
    if scancode <= 0xffff {
        Some(scancode as u16)
    } else {
        None
    }
}

/// A key as the tables of the platform describe it.
pub struct ResolvedKey {
    pub key: KbKey,
    pub code: Code,
    pub location: Location,
}

/// Where composition may take place.
///
/// If there is no text field, we choose to disable composing, based on the observation that
/// the behaviour of text fields is to cancel composition if the text field changes
#[derive(Clone, Copy, Debug, PartialEq, Eq, Structural)]
pub enum ComposingContext {
    TextField,
    NoTextField,
}

/// Keyboard state without composition.
pub struct XkbState {
    pub mod_indices: ModsIndices,
    pub active_mods: Modifiers,
}

impl XkbState {
    /// The state of a keyboard on which nothing is held.
    pub fn new(mod_indices: ModsIndices) -> (state: XkbState)
        ensures
            state == (XkbState { mod_indices, active_mods: Modifiers::of(0) }),
    {
        XkbState { mod_indices, active_mods: Modifiers::empty() }
    }

    /// Takes over the modifiers that are in effect after the window system reported a change.
    pub fn update_xkb_state(&mut self, effective: EffectiveMods)
        ensures
            *final(self) == (XkbState {
                active_mods: Modifiers::of(effective.flags()),
                ..*old(self)
            }),
    {
        self.active_mods = effective.modifiers();
    }

    /// The event for a key. Nothing is ever composed here, whatever the context.
    pub fn key_event(
        &self,
        resolved: ResolvedKey,
        state: KeyState,
        repeat: bool,
        _context: ComposingContext,
    ) -> (event: KeyEvent)
        ensures
            event == (KeyEvent {
                state,
                key: resolved.key,
                code: resolved.code,
                location: resolved.location,
                mods: self.active_mods,
                repeat,
                is_composing: false,
            }),
    {
        KeyEvent {
            state,
            key: resolved.key,
            code: resolved.code,
            location: resolved.location,
            mods: self.active_mods,
            repeat,
            is_composing: false,
        }
    }
}

/// What became of a key press that was offered to a text field.
#[derive(Clone, Copy, Debug, PartialEq, Eq, Structural)]
pub enum KeyboardHandled {
    UpdatedReleasingCompose,
    UpdatedClaimingCompose,
    UpdatedRetainingCompose,
    UpdatedNoCompose,
    NoUpdate,
}

/// What a press that changed the field did to the composition range.
pub open spec fn handled_as(outcome: simulate::Outcome) -> KeyboardHandled {
    match outcome {
        simulate::Outcome::NoComposition => KeyboardHandled::UpdatedNoCompose,
        simulate::Outcome::Cancelled(_) => KeyboardHandled::UpdatedReleasingCompose,
        simulate::Outcome::Finished(_) => KeyboardHandled::UpdatedReleasingCompose,
        simulate::Outcome::Updated { just_started, .. } => if just_started {
            KeyboardHandled::UpdatedClaimingCompose
        } else {
            KeyboardHandled::UpdatedRetainingCompose
        },
    }
}

/// Handle the results of a single keypress event
///
/// `handler` must be a mutable lock, and must not be *owned*
/// by any other input methods. In particular, the composition region
/// must:
/// - Be `None` for the first call to this function
/// - Be `None` if [`KeyEventsState::cancel_composing`]
/// was called since the previous call to this function, as would occur
/// if another IME claimed the input field, or the focused field was changed
/// - Be the range previously set by the previous call to this function in all other cases
///
/// If a different input method exists on the backend, it *must*
/// be removed from the input handler before calling this method
pub fn xkb_simulate_input<H: InputHandler>(
    xkb_state: &mut KeyEventsState,
    key: ComposeKey,
    is_backspace: bool,
    answer: ComposeAnswer,
    event: &KeyEvent,
    handler: &mut H,
) -> (handled: KeyboardHandled)
    requires
        old(xkb_state).wf(),
        answer is Nothing ==> !old(xkb_state).composing(),
        strings::fits_in_memory(event.key.typed()),
        simulate::can_compose(*old(handler), old(xkb_state).outcome(key, is_backspace, answer)),
    ensures
        final(xkb_state).wf(),
        final(xkb_state).same_keyboard(*old(xkb_state)),
        final(xkb_state).composing() == (old(xkb_state).next_keys(key, is_backspace, answer)
            is Some),
        final(xkb_state).sequence() == old(xkb_state).keys_after(key, is_backspace, answer),
        handled == KeyboardHandled::NoUpdate || handled == handled_as(
            old(xkb_state).outcome(key, is_backspace, answer),
        ),
        simulate::composed(
            *old(handler),
            *final(handler),
            *event,
            old(xkb_state).outcome(key, is_backspace, answer),
            handled != KeyboardHandled::NoUpdate,
        ),
{
    let compose_result = xkb_state.compose_key_down(key, is_backspace, answer);
    let result_if_update_occurs = match &compose_result {
        CompositionResult::NoComposition => KeyboardHandled::UpdatedNoCompose,
        CompositionResult::Cancelled(_) => KeyboardHandled::UpdatedReleasingCompose,
        CompositionResult::Finished(_) => KeyboardHandled::UpdatedReleasingCompose,
        CompositionResult::Updated { just_started, .. } => {
            if *just_started {
                KeyboardHandled::UpdatedClaimingCompose
            } else {
                KeyboardHandled::UpdatedRetainingCompose
            }
        },
    };
    if simulate::simulate_compose(handler, event, compose_result) {
        result_if_update_occurs
    } else {
        KeyboardHandled::NoUpdate
    }
}

/// The keyboard comes to own the composition range of a field with the first press of a
/// composition, and gives it up with the last: a press claims it exactly if a composition starts,
/// retains it if one goes on, and releases it if one ends.
pub proof fn law_compose_ownership_follows_the_composition(
    state: KeyEventsState,
    key: ComposeKey,
    is_backspace: bool,
    answer: ComposeAnswer,
)
    requires
        state.wf(),
        answer is Nothing ==> !state.composing(),
        answer is Composed || answer is Cancelled ==> state.composing(),
    ensures
        ({
            let handled = handled_as(state.outcome(key, is_backspace, answer));
            let now = state.next_keys(key, is_backspace, answer) is Some;
            &&& handled == KeyboardHandled::UpdatedClaimingCompose <==> !state.composing() && now
            &&& handled == KeyboardHandled::UpdatedReleasingCompose ==> !now
            &&& state.composing() && !now ==> handled == KeyboardHandled::UpdatedReleasingCompose
                || !state.table()
            &&& handled == KeyboardHandled::UpdatedRetainingCompose ==> state.composing() && now
            &&& handled == KeyboardHandled::UpdatedNoCompose ==> now == state.composing()
            &&& handled != KeyboardHandled::NoUpdate
        }),
{
}

/// What a key means, by what its symbol is mapped to and the character that it types.
pub open spec fn means(mapped: KbKey, utf32: u32, key: KbKey) -> bool {
    if mapped is Unidentified && utf32 != 0 {
        key matches KbKey::Character(text) && text@.len() == 1 && text@[0] as u32 == utf32
    } else {
        key == mapped
    }
}

/// A symbol that is mapped means what it is mapped to, whatever it types. One that is not means its
/// character, if it has one.
pub proof fn law_mapped_keys_keep_their_meaning(mapped: KbKey, utf32: u32, key: KbKey)
    requires
        means(mapped, utf32, key),
    ensures
        mapped !is Unidentified ==> key == mapped,
        utf32 == 0 ==> key == mapped,
        mapped is Unidentified && utf32 != 0 ==> key is Character && key.typed().len() == 1
            && key.typed()[0] as u32 == utf32,
{
}

} // verus!
