//! Keyboards: key repeat and the events that keyboards send.

use vstd::prelude::*;

use crate::keyboard::KeyState;
use crate::wayland::SurfaceId;
use crate::xkb::compose::KeyEventsState;
use crate::xkb::ActiveModifiers;

verus! {

/// The rate at which a pressed key is repeated.
#[derive(Clone, Copy, Debug, PartialEq, Eq, Structural)]
pub enum RepeatInfo {
    /// Keys will be repeated at the specified rate and delay.
    Repeat {
        /// The number of repetitions in a second
        rate: u32,
        /// Delay (in milliseconds) between a key press and the start of repetition.
        delay: u32,
    },
    /// Keys should not be repeated.
    Disable,
}

/// Names a timer of the event loop.
#[derive(Clone, Copy, Debug, PartialEq, Eq, Structural)]
pub struct TimerId(pub u64);

/// The format of a keymap.
#[derive(Clone, Copy, Debug, PartialEq, Eq, Structural)]
pub enum KeymapFormat {
    XkbV1,
    NoKeymap,
    /// A format that is not known here.
    Other,
}

/// An event of a keyboard.
#[derive(Clone, Copy, Debug)]
pub enum KeyboardEvent {
    Keymap { format: KeymapFormat },
    Enter { surface: SurfaceId },
    Leave,
    Modifiers { mods_depressed: u32, mods_latched: u32, mods_locked: u32, group: u32 },
    Key { key: u32, pressed: bool },
    RepeatInfo { rate: i32, delay: i32 },
}

/// What an event of a keyboard comes to.
#[derive(Clone, Copy, Debug)]
pub enum KeyboardAction {
    /// Compile the keymap, and take it over.
    LoadKeymap,
    /// Stop receiving events from the keyboard: it has no keymap that can be used.
    DropKeyboard,
    FocusEnter(SurfaceId),
    FocusLeave,
    /// Update the keymap's state.
    UpdateModifiers(ActiveModifiers),
    /// Modifiers came before a keymap, which cannot be.
    ModifiersTooEarly,
    /// Handle the key, and then its repetition.
    HandleKey { scancode: u32, state: KeyState },
    /// Stop a timer, if there is one.
    StopTimer(Option<TimerId>),
    Nothing,
}

/// What to do about the repetition of a key.
#[derive(Clone, Copy, Debug)]
pub struct RepeatAction {
    /// A timer to stop.
    pub stop: Option<TimerId>,
    /// A key to start repeating, and the delay in milliseconds until then.
    pub start: Option<(u32, u32)>,
}

/// The state of a seat's keyboard.
pub struct KeyboardState {
    /// Absent until the keyboard has a keymap.
    pub xkb_state: Option<KeyEventsState>,
    pub repeat_settings: RepeatInfo,
    /// The timer, and the scancode which is currently being repeated
    pub repeat_details: Option<(TimerId, u32)>,
}

/// Key numbers of the protocol are 8 below the scancodes of the keymap.
pub const SCANCODE_OFFSET: u32 = 8;

impl KeyboardState {
    pub fn new() -> (state: KeyboardState)
        ensures
            state.xkb_state is None,
            state.repeat_settings == RepeatInfo::Disable,
            state.repeat_details is None,
    {
        KeyboardState { xkb_state: None, repeat_settings: RepeatInfo::Disable, repeat_details: None }
    }

    /// The arguments that the protocol allows.
    pub open spec fn is_valid(event: KeyboardEvent) -> bool {
        match event {
            KeyboardEvent::Key { key, .. } => key <= u32::MAX - SCANCODE_OFFSET,
            KeyboardEvent::RepeatInfo { rate, delay } => rate == 0 || (rate > 0 && delay >= 0),
            _ => true,
        }
    }

    /// What an event comes to.
    pub open spec fn action(self, event: KeyboardEvent) -> KeyboardAction {
        match event {
            KeyboardEvent::Keymap { format } => if format == KeymapFormat::XkbV1 {
                KeyboardAction::LoadKeymap
            } else {
                KeyboardAction::DropKeyboard
            },
            KeyboardEvent::Enter { surface } => KeyboardAction::FocusEnter(surface),
            KeyboardEvent::Leave => KeyboardAction::FocusLeave,
            KeyboardEvent::Modifiers { mods_depressed, mods_latched, mods_locked, group } => if self.xkb_state is None {
                KeyboardAction::ModifiersTooEarly
            } else {
                KeyboardAction::UpdateModifiers(
                    ActiveModifiers {
                        base_mods: mods_depressed,
                        latched_mods: mods_latched,
                        locked_mods: mods_locked,
                        base_layout: group,
                        latched_layout: 0,
                        locked_layout: 0,
                    },
                )
            },
            KeyboardEvent::Key { key, pressed } => KeyboardAction::HandleKey {
                scancode: (key + SCANCODE_OFFSET) as u32,
                state: if pressed {
                    KeyState::Down
                } else {
                    KeyState::Up
                },
            },
            KeyboardEvent::RepeatInfo { rate, .. } => if rate != 0 {
                KeyboardAction::Nothing
            } else {
                KeyboardAction::StopTimer(
                    match self.repeat_details {
                        Some((timer, _)) => Some(timer),
                        None => None,
                    },
                )
            },
        }
    }

    /// How keys are repeated after an event.
    pub open spec fn settings_after(self, event: KeyboardEvent) -> RepeatInfo {
        match event {
            KeyboardEvent::RepeatInfo { rate, delay } => if rate != 0 {
                RepeatInfo::Repeat { rate: rate as u32, delay: delay as u32 }
            } else {
                RepeatInfo::Disable
            },
            _ => self.repeat_settings,
        }
    }

    /// Decides what an event of the keyboard comes to.
    pub fn event(&mut self, event: KeyboardEvent) -> (action: KeyboardAction)
        requires
            Self::is_valid(event),
        ensures
            action == old(self).action(event),
            *final(self) == (KeyboardState {
                repeat_settings: old(self).settings_after(event),
                ..*old(self)
            }),
    {
        match event {
            KeyboardEvent::Keymap { format } => match format {
                KeymapFormat::XkbV1 => KeyboardAction::LoadKeymap,
                KeymapFormat::NoKeymap | KeymapFormat::Other => KeyboardAction::DropKeyboard,
            },
            KeyboardEvent::Enter { surface } => KeyboardAction::FocusEnter(surface),
            KeyboardEvent::Leave => KeyboardAction::FocusLeave,
            KeyboardEvent::Modifiers { mods_depressed, mods_latched, mods_locked, group } => {
                if self.xkb_state.is_none() {
                    return KeyboardAction::ModifiersTooEarly;
                }
                KeyboardAction::UpdateModifiers(
                    ActiveModifiers {
                        base_mods: mods_depressed,
                        latched_mods: mods_latched,
                        locked_mods: mods_locked,
                        base_layout: group,
                        latched_layout: 0,
                        locked_layout: 0,
                    },
                )
            },
            KeyboardEvent::Key { key, pressed } => {
                let scancode: u32 = key + SCANCODE_OFFSET;
                let state = if pressed {
                    KeyState::Down
                } else {
                    KeyState::Up
                };
                KeyboardAction::HandleKey { scancode, state }
            },
            KeyboardEvent::RepeatInfo { rate, delay } => {
                if rate != 0 {
                    self.repeat_settings = RepeatInfo::Repeat {
                        rate: rate as u32,
                        delay: delay as u32,
                    };
                    KeyboardAction::Nothing
                } else {
                    self.repeat_settings = RepeatInfo::Disable;
                    match self.repeat_details {
                        Some((timer, _)) => KeyboardAction::StopTimer(Some(timer)),
                        None => KeyboardAction::StopTimer(None),
                    }
                }
            },
        }
    }

    /// What the repetition of keys comes to, when a key goes down or up. `repeats` says whether the
    /// keymap lets the key repeat.
    ///
    /// A key that repeats takes over from the one before; one that does not leaves that repeating.
    pub open spec fn repeat_action(self, state: KeyState, scancode: u32, repeats: bool) -> RepeatAction {
        match (self.repeat_settings, state) {
            (RepeatInfo::Disable, _) => RepeatAction { stop: None, start: None },
            (RepeatInfo::Repeat { delay, .. }, KeyState::Down) => if repeats {
                RepeatAction {
                    stop: match self.repeat_details {
                        Some((timer, _)) => Some(timer),
                        None => None,
                    },
                    start: Some((scancode, delay)),
                }
            } else {
                RepeatAction { stop: None, start: None }
            },
            (RepeatInfo::Repeat { .. }, KeyState::Up) => RepeatAction {
                stop: match self.repeat_details {
                    Some((timer, code)) => if code == scancode {
                        Some(timer)
                    } else {
                        None
                    },
                    None => None,
                },
                start: None,
            },
        }
    }

    /// Decides what the repetition of keys comes to, when a key goes down or up. A key that is to
    /// be repeated is noted with [`Self::repeating`] once its timer is known.
    pub fn handle_repeat(&mut self, state: KeyState, scancode: u32, repeats: bool) -> (action:
        RepeatAction)
        ensures
            action == old(self).repeat_action(state, scancode, repeats),
            *final(self) == (KeyboardState {
                repeat_details: old(self).details_after(action),
                ..*old(self)
            }),
    {
        match self.repeat_settings {
            RepeatInfo::Disable => RepeatAction { stop: None, start: None },
            RepeatInfo::Repeat { rate: _, delay } => {
                match state {
                    KeyState::Down => {
                        if repeats {
                            let stop = match self.repeat_details {
                                Some((timer, _)) => Some(timer),
                                None => None,
                            };
                            self.repeat_details = None;
                            RepeatAction { stop, start: Some((scancode, delay)) }
                        } else {
                            RepeatAction { stop: None, start: None }
                        }
                    },
                    KeyState::Up => {
                        if let Some((timer, code)) = self.repeat_details {
                            if code == scancode {
                                self.repeat_details = None;
                                return RepeatAction { stop: Some(timer), start: None };
                            }
                        }
                        RepeatAction { stop: None, start: None }
                    },
                }
            },
        }
    }

    /// Notes that a key is being repeated by a timer.
    pub fn repeating(&mut self, timer: TimerId, scancode: u32)
        ensures
            *final(self) == (KeyboardState {
                repeat_details: Some((timer, scancode)),
                ..*old(self)
            }),
    {
        self.repeat_details = Some((timer, scancode));
    }

    /// How often a key repeats, if it does.
    pub open spec fn rate(self) -> Option<u32> {
        match self.repeat_settings {
            RepeatInfo::Repeat { rate, .. } => Some(rate),
            RepeatInfo::Disable => None,
        }
    }

    /// How often a key repeats, asked each time it has been repeated. `None` ends the repetition:
    /// it was disabled in the meantime.
    ///
    /// The next repetition comes after the deadline of this one, rather than after the current
    /// time, to ensure consistency even with a really inaccurate implementation of timers.
    pub fn repeat_rate(&self) -> (rate: Option<u32>)
        ensures
            rate == self.rate(),
    {
        match self.repeat_settings {
            RepeatInfo::Repeat { rate, delay: _ } => Some(rate),
            RepeatInfo::Disable => None,
        }
    }
}

/// A key that repeats stops repeating when it is released, and not when another key is.
pub proof fn law_release_ends_only_its_own_repetition(
    keyboard: KeyboardState,
    timer: TimerId,
    scancode: u32,
    other: u32,
)
    requires
        keyboard.repeat_settings is Repeat,
        keyboard.repeat_details == Some((timer, scancode)),
        other != scancode,
    ensures
        keyboard.repeat_action(KeyState::Up, scancode, true).stop == Some(timer),
        keyboard.repeat_action(KeyState::Up, other, true) == (RepeatAction {
            stop: None,
            start: None,
        }),
{
}

/// A key is handled under its number in the keymap, which is 8 above that of the protocol, and goes
/// down when it is pressed and up when it is not: keys that differ are handled as keys that differ.
pub proof fn law_keys_are_counted_as_in_the_keymap(
    keyboard: KeyboardState,
    key: u32,
    pressed: bool,
)
    requires
        KeyboardState::is_valid(KeyboardEvent::Key { key, pressed }),
    ensures
        keyboard.action(KeyboardEvent::Key { key, pressed }) matches KeyboardAction::HandleKey {
            scancode,
            state,
        } && scancode - key == 8 && (state == KeyState::Down <==> pressed),
{
}

/// Modifiers reach the keymap as they were sent, the group as the layout that is held, and only once
/// there is a keymap. A keymap is loaded only in the format that is known.
pub proof fn law_modifiers_reach_the_keymap(
    keyboard: KeyboardState,
    event: KeyboardEvent,
    format: KeymapFormat,
)
    ensures
        event matches KeyboardEvent::Modifiers { mods_depressed, mods_latched, mods_locked, group }
            ==> match keyboard.action(event) {
            KeyboardAction::UpdateModifiers(mods) => {
                &&& keyboard.xkb_state is Some
                &&& mods.base_mods == mods_depressed && mods.latched_mods == mods_latched
                    && mods.locked_mods == mods_locked
                &&& mods.base_layout == group && mods.latched_layout == 0 && mods.locked_layout == 0
            },
            KeyboardAction::ModifiersTooEarly => keyboard.xkb_state is None,
            _ => false,
        },
        keyboard.action(KeyboardEvent::Keymap { format }) is LoadKeymap <==> format
            == KeymapFormat::XkbV1,
        keyboard.action(KeyboardEvent::Keymap { format }) is DropKeyboard <==> format
            != KeymapFormat::XkbV1,
        event matches KeyboardEvent::Enter { surface } ==> keyboard.action(event)
            == KeyboardAction::FocusEnter(surface),
        event is Leave ==> keyboard.action(event) == KeyboardAction::FocusLeave,
{
}

/// A rate of zero ends all repetition, and stops the key that is being repeated; any other rate is
/// taken over together with the delay, and nothing else changes how keys repeat.
pub proof fn law_rates_are_taken_over(keyboard: KeyboardState, event: KeyboardEvent)
    requires
        KeyboardState::is_valid(event),
    ensures
        !(event is RepeatInfo) ==> keyboard.settings_after(event) == keyboard.repeat_settings,
        event matches KeyboardEvent::RepeatInfo { rate, delay } ==> match keyboard.settings_after(
            event,
        ) {
            RepeatInfo::Disable => {
                &&& rate == 0
                &&& keyboard.action(event) matches KeyboardAction::StopTimer(stopped) && match stopped {
                    Some(timer) => keyboard.repeat_details matches Some((repeating, _))
                        && repeating == timer,
                    None => keyboard.repeat_details is None,
                }
            },
            RepeatInfo::Repeat { rate: often, delay: late } => rate != 0 && often == rate && late
                == delay && keyboard.action(event) is Nothing,
        },
        keyboard.rate() is None <==> keyboard.repeat_settings is Disable,
        keyboard.repeat_settings matches RepeatInfo::Repeat { rate, .. } ==> keyboard.rate() == Some(
            rate,
        ),
{
}

/// A press starts repeating exactly if keys repeat at all and the keymap lets this one; it starts
/// after the delay that was asked for, and takes over from whatever was repeating. Nothing is
/// started by a release.
pub proof fn law_presses_start_repeating(
    keyboard: KeyboardState,
    state: KeyState,
    scancode: u32,
    repeats: bool,
)
    ensures
        ({
            let action = keyboard.repeat_action(state, scancode, repeats);
            &&& action.start is Some <==> state == KeyState::Down && repeats
                && keyboard.repeat_settings is Repeat
            &&& action.start matches Some((key, delay)) ==> key == scancode && (
            keyboard.repeat_settings matches RepeatInfo::Repeat { delay: asked, .. } && delay
                == asked)
            &&& action.start is Some ==> action.stop is Some == keyboard.repeat_details is Some
            &&& action.stop matches Some(timer) ==> (keyboard.repeat_details matches Some((
                repeating,
                _,
            )) && timer == repeating)
            &&& keyboard.repeat_settings is Disable ==> action.stop is None
            &&& state == KeyState::Down && !repeats ==> action.stop is None
        }),
{
}

impl KeyboardState {
    /// The timer that is kept once a key went down or up.
    pub open spec fn details_after(self, action: RepeatAction) -> Option<(TimerId, u32)> {
        if action.stop is Some || action.start is Some {
            None
        } else {
            self.repeat_details
        }
    }

    /// A timer that is stopped is forgotten, and so is one that another takes the place of. A key
    /// that does neither leaves the one that runs alone.
    pub proof fn law_stopped_timers_are_forgotten(
        self,
        state: KeyState,
        scancode: u32,
        repeats: bool,
    )
        ensures
            ({
                let action = self.repeat_action(state, scancode, repeats);
                &&& self.details_after(action) is None || self.details_after(action)
                    == self.repeat_details
                &&& self.details_after(action) is Some ==> action.stop is None && action.start is None
                &&& action.stop is None && action.start is None ==> self.details_after(action)
                    == self.repeat_details
            }),
    {
    }
}

} // verus!
