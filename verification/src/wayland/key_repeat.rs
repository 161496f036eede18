//! A keyboard that repeats its keys on a thread of its own.

use vstd::prelude::*;

use crate::keyboard::{KeyState, Modifiers};
use crate::text::TextFieldToken;
use crate::wayland::keyboard::SCANCODE_OFFSET;
use crate::xkb::ActiveModifiers;

verus! {

/// A key press or release.
#[derive(Clone, Copy, Debug, PartialEq, Eq, Structural)]
pub struct CachedKeyPress {
    pub seat: u32,
    pub serial: u32,
    pub timestamp: u32,
    pub key: u32,
    pub repeat: bool,
    pub state: KeyState,
}

impl CachedKeyPress {
    /// The same press, as a repetition.
    pub fn repeat(&self) -> (repeated: CachedKeyPress)
        ensures
            repeated == (CachedKeyPress { repeat: true, ..*self }),
    {
        CachedKeyPress { repeat: true, ..*self }
    }
}

/// A number of milliseconds, of a number that the keyboard sent. A negative one wraps around.
pub open spec fn millis(number: int) -> u64 {
    if number >= 0 {
        number as u64
    } else {
        (number + 0x1_0000_0000_0000_0000) as u64
    }
}

fn to_millis(number: i32) -> (millis: u64)
    ensures
        millis == self::millis(number as int),
{
    if number >= 0 {
        number as u64
    } else {
        u64::MAX - (-1 - number) as u64
    }
}

/// The milliseconds between two repetitions, of how many come in a second. The remainder is cut
/// off, whatever the sign.
pub open spec fn interval(per_second: int) -> int
    recommends
        per_second != 0,
{
    if per_second > 0 {
        1000int / per_second
    } else {
        -(1000int / -per_second)
    }
}

fn to_interval(per_second: i32) -> (millis: i32)
    requires
        per_second != 0,
    ensures
        millis == interval(per_second as int),
        -1000 <= millis <= 1000,
{
    let count: i64 = per_second as i64;
    if count > 0 {
        let whole: u64 = 1000u64 / count as u64;
        whole as i32
    } else {
        let whole: u64 = 1000u64 / (-count) as u64;
        -(whole as i32)
    }
}

/// How fast keys repeat, in milliseconds.
#[derive(Clone, Copy, Debug, PartialEq, Eq, Structural)]
pub struct Repeat {
    /// Between two repetitions.
    pub rate: u64,
    /// Before the first repetition.
    pub delay: u64,
}

impl Default for Repeat {
    fn default() -> (repeat: Repeat)
        ensures
            repeat == (Repeat { rate: 40, delay: 600 }),
    {
        Repeat { rate: 40, delay: 600 }
    }
}

/// An event of the keyboard. A keymap is in the one format that can be used.
#[derive(Clone, Copy, Debug)]
pub enum Event {
    Keymap,
    Enter,
    Leave,
    Key { serial: u32, time: u32, key: u32, state: KeyState },
    Modifiers { mods_depressed: u32, mods_latched: u32, mods_locked: u32, group: u32 },
    RepeatInfo { rate: i32, delay: i32 },
    Other,
}

/// What an event of the keyboard comes to.
#[derive(Clone, Copy, Debug)]
pub enum Outcome {
    /// Compile the keymap, and use it from now on.
    LoadKeymap,
    /// Send the key to the application.
    Keystroke(Keystroke),
    /// Update the keymap's state.
    UpdateModifiers(ActiveModifiers),
    Nothing,
}

/// A key to be sent to the application, with the modifiers that are held.
#[derive(Clone, Copy, Debug, PartialEq, Eq, Structural)]
pub struct Keystroke {
    pub key: u32,
    pub state: KeyState,
    pub repeat: bool,
    pub mods: Modifiers,
}

/// The keyboard.
#[derive(Clone, Copy, Debug)]
pub struct Keyboard {
    /// Whether we've currently got keyboard focus.
    pub focused: bool,
    pub repeat: Repeat,
    /// The press that is repeated.
    pub last_key_press: Option<CachedKeyPress>,
    pub xkb_mods: Modifiers,
}

impl Default for Keyboard {
    fn default() -> (keyboard: Keyboard)
        ensures
            keyboard == (Keyboard {
                focused: false,
                repeat: Repeat { rate: 40, delay: 600 },
                last_key_press: None,
                xkb_mods: Modifiers::of(0),
            }),
    {
        Keyboard {
            focused: false,
            repeat: Repeat::default(),
            last_key_press: None,
            xkb_mods: Modifiers::empty(),
        }
    }
}

impl Keyboard {
    /// The press that is still repeated after a release: the last one, unless it is a press of the
    /// same key that came before the release.
    pub open spec fn after_release(self, current: CachedKeyPress) -> Option<CachedKeyPress> {
        match self.last_key_press {
            None => None,
            Some(last) => if last.serial >= current.serial || last.key != current.key {
                Some(last)
            } else {
                None
            },
        }
    }

    /// The press that is still repeated after a release.
    pub fn release_last_key_press(&self, current: &CachedKeyPress) -> (last: Option<CachedKeyPress>)
        ensures
            last == self.after_release(*current),
    {
        match &self.last_key_press {
            None => None,
            Some(last) => {
                if last.serial >= current.serial {
                    return Some(*last);
                }
                if last.key != current.key {
                    return Some(*last);
                }
                None
            },
        }
    }

    /// The keyboard after a key: a press is repeated from now on.
    pub open spec fn after_keystroke(self, keystroke: CachedKeyPress) -> Keyboard {
        Keyboard {
            last_key_press: match keystroke.state {
                KeyState::Up => self.after_release(keystroke),
                KeyState::Down => Some(CachedKeyPress { repeat: true, ..keystroke }),
            },
            ..self
        }
    }

    /// Handles a key, and gives what is sent to the application.
    pub fn keystroke(&mut self, keystroke: &CachedKeyPress) -> (sent: Keystroke)
        ensures
            *final(self) == old(self).after_keystroke(*keystroke),
            sent == (Keystroke {
                key: keystroke.key,
                state: keystroke.state,
                repeat: keystroke.repeat,
                mods: old(self).xkb_mods,
            }),
    {
        match keystroke.state {
            KeyState::Up => {
                self.last_key_press = self.release_last_key_press(keystroke);
            },
            KeyState::Down => {
                self.last_key_press = Some(keystroke.repeat());
            },
        }
        Keystroke {
            key: keystroke.key,
            state: keystroke.state,
            repeat: keystroke.repeat,
            mods: self.xkb_mods,
        }
    }

    /// The arguments that the keyboard may send.
    pub open spec fn is_valid(event: Event) -> bool {
        match event {
            Event::Key { key, .. } => key <= u32::MAX - SCANCODE_OFFSET,
            Event::RepeatInfo { rate, .. } => rate != 0,
            _ => true,
        }
    }

    /// The press or release that an event reports.
    pub open spec fn press_of(seat: u32, serial: u32, time: u32, key: u32, state: KeyState) -> CachedKeyPress {
        CachedKeyPress {
            repeat: false,
            seat,
            serial,
            timestamp: time,
            key: (key + SCANCODE_OFFSET) as u32,
            state,
        }
    }

    /// The keyboard after an event.
    pub open spec fn after(self, seat: u32, event: Event) -> Keyboard {
        match event {
            Event::Enter => Keyboard { focused: true, ..self },
            Event::Leave => Keyboard { focused: false, ..self },
            Event::Key { serial, time, key, state } => self.after_keystroke(
                Self::press_of(seat, serial, time, key, state),
            ),
            Event::RepeatInfo { rate, delay } => Keyboard {
                repeat: Repeat { rate: millis(interval(rate as int)), delay: millis(delay as int) },
                ..self
            },
            _ => self,
        }
    }

    /// What an event comes to.
    pub open spec fn outcome(self, event: Event) -> Outcome {
        match event {
            Event::Keymap => Outcome::LoadKeymap,
            Event::Key { key, state, .. } => Outcome::Keystroke(
                Keystroke {
                    key: (key + SCANCODE_OFFSET) as u32,
                    state,
                    repeat: false,
                    mods: self.xkb_mods,
                },
            ),
            Event::Modifiers { mods_depressed, mods_latched, mods_locked, group } =>
                Outcome::UpdateModifiers(
                ActiveModifiers {
                    base_mods: mods_depressed,
                    latched_mods: mods_latched,
                    locked_mods: mods_locked,
                    base_layout: group,
                    latched_layout: 0,
                    locked_layout: 0,
                },
            ),
            _ => Outcome::Nothing,
        }
    }

    /// Takes in an event.
    pub fn consume(&mut self, seat: u32, event: Event) -> (outcome: Outcome)
        requires
            Self::is_valid(event),
        ensures
            *final(self) == old(self).after(seat, event),
            outcome == old(self).outcome(event),
    {
        match event {
            Event::Keymap => Outcome::LoadKeymap,
            Event::Enter => {
                self.focused = true;
                Outcome::Nothing
            },
            Event::Leave => {
                self.focused = false;
                Outcome::Nothing
            },
            Event::Key { serial, time, key, state } => {
                let press = CachedKeyPress {
                    repeat: false,
                    seat,
                    serial,
                    timestamp: time,
                    key: key + SCANCODE_OFFSET,
                    state,
                };
                Outcome::Keystroke(self.keystroke(&press))
            },
            Event::Modifiers { mods_depressed, mods_latched, mods_locked, group } =>
                Outcome::UpdateModifiers(
                ActiveModifiers {
                    base_mods: mods_depressed,
                    latched_mods: mods_latched,
                    locked_mods: mods_locked,
                    base_layout: group,
                    latched_layout: 0,
                    locked_layout: 0,
                },
            ),
            Event::RepeatInfo { rate, delay } => {
                self.repeat = Repeat {
                    rate: to_millis(to_interval(rate)),
                    delay: to_millis(delay),
                };
                Outcome::Nothing
            },
            Event::Other => Outcome::Nothing,
        }
    }

    /// The timer that repeats the last press.
    pub open spec fn timer(self) -> Option<(u64, CachedKeyPress)> {
        match self.last_key_press {
            None => None,
            Some(cached) => Some((self.repeat.delay, cached)),
        }
    }

    /// The timer to set after an event, with its delay in milliseconds and what it repeats. Every
    /// timer that was set before is cancelled.
    pub fn repeat_timer(&self) -> (timer: Option<(u64, CachedKeyPress)>)
        ensures
            timer == self.timer(),
    {
        match self.last_key_press {
            None => None,
            Some(cached) => Some((self.repeat.delay, cached)),
        }
    }

    /// A timer has come. Gives what is sent to the application, and when the timer comes again, in
    /// milliseconds.
    pub fn repeat_fired(&mut self, press: &CachedKeyPress) -> (fired: (Keystroke, u64))
        ensures
            *final(self) == old(self).after_keystroke(*press),
            fired.0 == (Keystroke {
                key: press.key,
                state: press.state,
                repeat: press.repeat,
                mods: old(self).xkb_mods,
            }),
            fired.1 == old(self).repeat.rate,
    {
        let again: u64 = self.repeat.rate;
        (self.keystroke(press), again)
    }
}

/// A pressed key is repeated until it is released. The release of another key, or one from before
/// the press, does not end that.
pub proof fn law_key_repeats_until_released(
    keyboard: Keyboard,
    press: CachedKeyPress,
    release: CachedKeyPress,
)
    requires
        press.state == KeyState::Down,
        release.state == KeyState::Up,
    ensures
        ({
            let pressed = keyboard.after_keystroke(press);
            let released = pressed.after_keystroke(release);
            &&& pressed.last_key_press == Some(CachedKeyPress { repeat: true, ..press })
            &&& released.last_key_press is None <==> release.key == press.key && release.serial
                > press.serial
            &&& released.last_key_press is Some ==> released.last_key_press
                == pressed.last_key_press
        }),
{
}

/// What to do with a key that arrives for the focused window.
#[derive(Clone, Copy, Debug, PartialEq, Eq, Structural)]
pub enum KeyDelivery {
    /// Tell the handler about a release.
    KeyUp,
    /// Type a press into the focused text field, if there is one.
    Type(Option<TextFieldToken>),
    /// There is no window, or nothing is known of it.
    Drop,
}

/// What to do with a key.
pub open spec fn delivery_for(
    state: KeyState,
    window: Option<Option<TextFieldToken>>,
) -> KeyDelivery {
    match (window, state) {
        (None, _) => KeyDelivery::Drop,
        (Some(_), KeyState::Up) => KeyDelivery::KeyUp,
        (Some(field), KeyState::Down) => KeyDelivery::Type(field),
    }
}

/// Decides what to do with a key. `window` is the focused text field of the current window, if
/// there is such a window.
pub fn deliver_key(state: KeyState, window: Option<Option<TextFieldToken>>) -> (delivery: KeyDelivery)
    ensures
        delivery == delivery_for(state, window),
{
    match window {
        None => KeyDelivery::Drop,
        Some(field) => match state {
            KeyState::Up => KeyDelivery::KeyUp,
            KeyState::Down => KeyDelivery::Type(field),
        },
    }
}

/// So many repetitions as come in a second fit into it, and no longer interval would do; a negative
/// rate gives the same interval, negated.
pub proof fn law_intervals_fill_a_second(per_second: int)
    requires
        per_second > 0,
    ensures
        per_second * interval(per_second) <= 1000 < per_second * (interval(per_second) + 1),
        interval(-per_second) == -interval(per_second),
{
    let whole = 1000int / per_second;
    assert(per_second * whole <= 1000 < per_second * (whole + 1)) by (nonlinear_arith)
        requires
            per_second > 0,
            whole == 1000int / per_second,
    ;
}

/// The keyboard repeats keys as it is told to: the time before the first repetition is the delay,
/// and the time between two follows from the rate. Only that event changes how keys repeat, and only
/// gaining and losing the focus changes the focus.
pub proof fn law_events_change_their_own_part(keyboard: Keyboard, seat: u32, event: Event)
    ensures
        ({
            let after = keyboard.after(seat, event);
            &&& event matches Event::RepeatInfo { rate, delay } ==> (rate > 0 ==> rate
                * after.repeat.rate <= 1000 < rate * (after.repeat.rate + 1)) && (delay >= 0
                ==> after.repeat.delay == delay)
            &&& !(event is RepeatInfo) ==> after.repeat == keyboard.repeat
            &&& event is Enter ==> after.focused
            &&& event is Leave ==> !after.focused
            &&& !(event is Enter) && !(event is Leave) ==> after.focused == keyboard.focused
            &&& !(event is Key) ==> after.last_key_press == keyboard.last_key_press
            &&& after.xkb_mods == keyboard.xkb_mods
        }),
{
    if let Event::RepeatInfo { rate, delay } = event {
        if rate > 0 {
            law_intervals_fill_a_second(rate as int);
            let whole = interval(rate as int);
            assert(whole >= 0) by (nonlinear_arith)
                requires
                    whole == 1000int / (rate as int),
                    rate > 0,
            ;
        }
    }
}

/// A key that is pressed is sent to the application as it is, for the first time as no repetition,
/// with the modifiers that are held; it is then repeated as a repetition, under the same number and
/// with its own time and serial, after the delay.
pub proof fn law_pressed_keys_are_sent_and_repeated(
    keyboard: Keyboard,
    seat: u32,
    serial: u32,
    time: u32,
    key: u32,
    state: KeyState,
)
    requires
        key <= u32::MAX - 8,
    ensures
        ({
            let event = Event::Key { serial, time, key, state };
            let after = keyboard.after(seat, event);
            &&& keyboard.outcome(event) matches Outcome::Keystroke(sent) && sent.key == key + 8
                && sent.state == state && !sent.repeat && sent.mods == keyboard.xkb_mods
            &&& state == KeyState::Down ==> (after.timer() matches Some((delay, press)) && delay
                == keyboard.repeat.delay && press.key == key + 8 && press.repeat && press.state
                == KeyState::Down && press.serial == serial && press.timestamp == time && press.seat
                == seat)
            &&& after.timer() is Some == after.last_key_press is Some
        }),
{
}

/// Modifiers and keymaps are handed on to the keymap, and nothing else is.
pub proof fn law_keymap_events_are_handed_on(keyboard: Keyboard, event: Event)
    ensures
        keyboard.outcome(event) is LoadKeymap <==> event is Keymap,
        keyboard.outcome(event) is Keystroke <==> event is Key,
        event matches Event::Modifiers { mods_depressed, mods_latched, mods_locked, group } ==> (
        keyboard.outcome(event) matches Outcome::UpdateModifiers(mods) && mods.base_mods
            == mods_depressed && mods.latched_mods == mods_latched && mods.locked_mods
            == mods_locked && mods.base_layout == group && mods.latched_layout == 0
            && mods.locked_layout == 0),
{
}

/// Presses are typed into the focused field and releases are told to the handler, of a window that
/// there is.
pub proof fn law_keys_are_delivered_to_windows(
    state: KeyState,
    window: Option<Option<TextFieldToken>>,
)
    ensures
        delivery_for(state, window) == KeyDelivery::Drop <==> window is None,
        delivery_for(state, window) == KeyDelivery::KeyUp <==> window is Some && state
            == KeyState::Up,
        delivery_for(state, window) matches KeyDelivery::Type(field) ==> window == Some(field),
{
}

impl Keyboard {
    /// What the compositor reports of a key is no repetition, and names the key that the keymap
    /// knows: its number is that of the event, moved on by a fixed step.
    pub proof fn law_reported_keys_are_not_repeated(
        seat: u32,
        serial: u32,
        time: u32,
        key: u32,
        other: u32,
        state: KeyState,
    )
        requires
            key <= u32::MAX - SCANCODE_OFFSET,
            other <= u32::MAX - SCANCODE_OFFSET,
        ensures
            ({
                let press = Self::press_of(seat, serial, time, key, state);
                &&& !press.repeat
                &&& press.seat == seat && press.serial == serial && press.timestamp == time
                &&& press.state == state
                &&& press.key - key == Self::press_of(seat, serial, time, other, state).key - other
                &&& press.key == key + 8
            }),
    {
    }
}

} // verus!
