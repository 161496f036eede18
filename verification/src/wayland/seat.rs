//! Seats: which window and which text field they edit, and who edits it.

use vstd::prelude::*;

use crate::keyboard::{KeyEvent, KeyState};
use crate::strings;
use crate::text::simulate;
use crate::text::{Event, InputHandler, TextFieldToken};
use crate::util::Counter;
use crate::wayland::keyboard::{KeyboardState, RepeatInfo};
use crate::wayland::text_input::{ChangeCause, InputState};
use crate::wayland::{SeatName, SurfaceId};
use crate::xkb;
use crate::xkb::compose::{ComposeAnswer, ComposeKey, KeyEventsState};
use crate::xkb::KeyboardHandled;

verus! {

/// Who composes text in the focused field.
#[derive(Clone, Copy, Debug, PartialEq, Eq, Structural)]
pub enum TextFieldOwner {
    Keyboard,
    TextInput,
    Neither,
}

/// The properties maintained about the text input fields of a window.
///
/// We should be extremely careful around the use of `active_text_field` and
/// `next_text_field`, because these could become None any time user code has control
/// (during the release of an input lock is an especially sneaky case we need to watch out
/// for). This is because the corresponding text input could be removed by calling the window method,
/// so we need to not access the input field in that case.
#[derive(Clone, Copy, Debug, PartialEq, Eq, Structural)]
pub struct TextInputProperties {
    pub active_text_field: Option<TextFieldToken>,
    pub next_text_field: Option<TextFieldToken>,
    /// Whether the contents of `active_text_field` are different
    /// to what they previously were. This is only set to true by the application
    pub active_text_field_updated: bool,
    pub active_text_layout_changed: bool,
}

/// A field to be locked, if it is still there.
#[derive(Clone, Copy, Debug, PartialEq, Eq, Structural)]
pub struct FutureInputLock {
    pub token: TextFieldToken,
    /// Whether the field has been updated by the application since the last
    /// execution. This effectively means that it isn't meaningful for the IME to
    /// edit the contents or selection any more
    pub field_updated: bool,
}

/// How the composed text of a field is given up.
#[derive(Debug)]
pub enum FieldEdit {
    /// The text stays as it is, and is no longer marked as composed.
    ClearComposition,
    /// The composed range is overwritten with this text.
    ReplaceComposition(String),
}

/// What has to be done to give up the composed text.
#[derive(Debug)]
pub struct ReleasePlan {
    /// The field to lock, and what to do with it.
    pub edit: Option<(TextFieldToken, FieldEdit)>,
    /// Whether the compose table has to be reset.
    pub reset_table: bool,
    /// Whether the input method has to be disabled.
    pub disable_input_method: bool,
}

/// Why a text field changed.
#[derive(Clone, Copy, Debug, PartialEq, Eq, Structural)]
pub enum TextFieldChangeCause {
    Keyboard,
    TextInput,
    Application,
}

/// What happened to the focused text field of a window.
#[derive(Clone, Copy, Debug, PartialEq, Eq, Structural)]
pub enum TextFieldChange {
    /// An existing text field was updated
    Updated(TextFieldToken, Event, TextFieldChangeCause),
    /// A different text field was selected
    Changed { from: Option<TextFieldToken>, to: Option<TextFieldToken> },
}

/// A step of following a change of a text field.
#[derive(Clone, Copy, Debug, PartialEq, Eq, Structural)]
pub enum FieldStep {
    /// Lock a field, for reading or for writing.
    Lock(TextFieldToken, bool),
    /// Send the cursor rectangle of the locked field.
    SyncCursor,
    /// Send the state of the locked field.
    SyncState(ChangeCause),
    /// Stop showing anything as composed in the locked field.
    ClearComposition,
    Unlock(TextFieldToken),
}

/// The state we need to store about each seat
///
/// These are stored in a vector because we expect nearly all
/// programs to only encounter a single seat, so we don't need the overhead of a HashMap.
/// However, there's little harm in supporting multiple seats, so we may as well do so
///
/// The SeatInfo is also the only system which can edit text input fields.
///
/// Both the keyboard and text input want to handle text fields, so the seat handles ownership of this.
/// In particular, either the keyboard, or the text input system can "own" the input handling for the
/// focused text field, but not both. The main thing this impacts is whose state must be reset when the
/// other makes this claim.
pub struct SeatInfo {
    pub id: SeatName,
    pub keyboard_state: Option<KeyboardState>,
    pub input_state: Option<InputState>,
    pub keyboard_focused: Option<SurfaceId>,
    pub text_field_owner: TextFieldOwner,
}

/// How a window that gains the focus is to be treated.
#[derive(Clone, Copy, Debug, PartialEq, Eq, Structural)]
pub struct FocusPlan {
    /// Whether the window really gains the focus: its handler is told, and its fields looked at.
    pub enter: bool,
    /// Whether the input method has to be disabled first.
    pub disable_input_method: bool,
    /// How the fields of the window are looked at, once its handler was told: the active field is
    /// taken up in any case, and the input method told, if there is one.
    pub follow: Option<UpdateLoop>,
}

/// What to do with a key.
#[derive(Clone, Copy, Debug, PartialEq, Eq, Structural)]
pub enum KeyRoute {
    /// No window is focused, or it is gone.
    Ignore,
    /// Tell the handler that a key was released.
    KeyUp,
    /// Offer the press to the handler, and if it does not take it, to the text field.
    KeyDown,
}

/// The lock to take on a field.
pub open spec fn lock_of(field: Option<TextFieldToken>, field_updated: bool) -> Option<FutureInputLock> {
    match field {
        Some(token) => Some(FutureInputLock { token, field_updated }),
        None => None,
    }
}

fn future_lock(field: Option<TextFieldToken>, field_updated: bool) -> (lock: Option<FutureInputLock>)
    ensures
        lock == lock_of(field, field_updated),
{
    match field {
        Some(token) => Some(FutureInputLock { token, field_updated }),
        None => None,
    }
}

impl SeatInfo {
    /// The keyboard's keymap and composition, if it has one.
    pub open spec fn xkb(self) -> Option<KeyEventsState> {
        match self.keyboard_state {
            Some(keyboard) => keyboard.xkb_state,
            None => None,
        }
    }

    /// Whether the keyboard is composing text.
    pub open spec fn composing(self) -> bool {
        self.xkb() is Some && self.xkb()->0.composing()
    }

    /// The keyboard owns the text field exactly while it is composing.
    pub open spec fn wf(self) -> bool {
        &&& self.xkb() matches Some(xkb) ==> xkb.wf()
        &&& self.composing() <==> self.text_field_owner == TextFieldOwner::Keyboard
    }

    /// A seat without a keyboard, and without an input method unless there is one to talk to.
    pub fn new(id: SeatName, has_input_method: bool) -> (seat: SeatInfo)
        ensures
            seat.wf(),
            seat.id == id,
            seat.keyboard_state is None,
            seat.input_state is Some == has_input_method,
            has_input_method ==> seat.input_state->0 == InputState::blank(None, 0, false, None),
            seat.keyboard_focused is None,
            seat.text_field_owner == TextFieldOwner::Neither,
    {
        SeatInfo {
            id,
            keyboard_state: None,
            input_state: if has_input_method {
                Some(InputState::new())
            } else {
                None
            },
            keyboard_focused: None,
            text_field_owner: TextFieldOwner::Neither,
        }
    }

    /// Everything but the keyboard's composition, the input method and the owner is the same.
    pub open spec fn same_focus(self, other: SeatInfo) -> bool {
        &&& self.id == other.id
        &&& self.keyboard_focused == other.keyboard_focused
        &&& self.keyboard_state is Some == other.keyboard_state is Some
        &&& self.xkb() is Some == other.xkb() is Some
        &&& self.xkb() matches Some(xkb) ==> xkb.same_keyboard(other.xkb()->0)
        &&& self.keyboard_state matches Some(keyboard) ==> keyboard.repeat_settings
            == other.keyboard_state->0.repeat_settings && keyboard.repeat_details
            == other.keyboard_state->0.repeat_details
    }

    /// The input method's state without a field.
    pub open spec fn without_field(state: Option<InputState>) -> Option<InputState> {
        match state {
            Some(ime) => Some(
                if ime.token is Some {
                    InputState::blank(ime.active_window, ime.commit_count, ime.changed, None)
                } else {
                    ime
                },
            ),
            None => None,
        }
    }

    /// How the composed text is given up.
    ///
    /// Where the keyboard composed it, the text stays in the field as it was shown, unless the
    /// application has changed the field, in which case the best we can do is to clear the region.
    /// An input method gets no chance to respond to a field becoming unfocused: its text stays.
    pub open spec fn release_edit(self, field: Option<FutureInputLock>, edit: Option<
        (TextFieldToken, FieldEdit),
    >) -> bool {
        match (self.text_field_owner, field) {
            (TextFieldOwner::Neither, _) => edit is None,
            (_, None) => edit is None,
            (TextFieldOwner::TextInput, Some(lock)) => edit matches Some((token, what)) && token
                == lock.token && what is ClearComposition,
            (TextFieldOwner::Keyboard, Some(lock)) => if lock.field_updated {
                edit matches Some((token, what)) && token == lock.token && what is ClearComposition
            } else {
                edit matches Some((token, FieldEdit::ReplaceComposition(text))) && token
                    == lock.token && text@ == self.xkb()->0.left_behind()
            },
        }
    }

    /// What giving up the composed text comes to.
    pub open spec fn released(
        self,
        after: SeatInfo,
        field: Option<FutureInputLock>,
        plan: ReleasePlan,
    ) -> bool {
        &&& after.same_focus(self)
        &&& after.text_field_owner == TextFieldOwner::Neither
        &&& !after.composing()
        &&& after.input_state == Self::without_field(self.input_state)
        &&& self.release_edit(field, plan.edit)
        &&& plan.reset_table == self.composing()
        &&& plan.disable_input_method == (self.input_state matches Some(ime) && ime.token is Some)
    }

    /// One of the cases in which the active preedit doesn't make sense anymore.
    /// This can happen if:
    /// 1. The selected field becomes a different field
    /// 2. The window loses keyboard (and therefore text input) focus
    /// 3. The selected field no longer exists
    /// 4. The selected field's content was updated by the application,
    ///    e.g. selecting a different place with the mouse. Note that this
    ///    doesn't include layout changes, which leave the preedit as valid
    ///
    /// `field` is the field which we were previously focused on, if it still exists.
    ///
    /// This leaves the text_input IME in a disabled state, so it should be re-enabled
    /// if there is still a text field present
    pub fn force_release_preedit(&mut self, field: Option<FutureInputLock>) -> (plan: ReleasePlan)
        requires
            old(self).wf(),
        ensures
            final(self).wf(),
            old(self).released(*final(self), field, plan),
    {
        let mut edit: Option<(TextFieldToken, FieldEdit)> = None;
        let mut reset_table = false;
        match self.text_field_owner {
            TextFieldOwner::Keyboard => {
                reset_table = true;
                let mut keyboard_state = self.keyboard_state.take();
                if let Some(mut keyboard) = keyboard_state {
                    let mut xkb_state = keyboard.xkb_state.take();
                    if let Some(mut xkb) = xkb_state {
                        let cancelled = xkb.cancel_composing();
                        assert(cancelled);
                        if let Some(lock) = field {
                            if lock.field_updated {
                                edit = Some((lock.token, FieldEdit::ClearComposition));
                            } else {
                                // If we (for example) lost focus, we want to leave the
                                // cancellation string
                                let text = xkb.cancelled_string().to_owned();
                                edit = Some((lock.token, FieldEdit::ReplaceComposition(text)));
                            }
                        }
                        xkb_state = Some(xkb);
                    } else {
                        xkb_state = None;
                    }
                    keyboard.xkb_state = xkb_state;
                    keyboard_state = Some(keyboard);
                } else {
                    keyboard_state = None;
                }
                self.keyboard_state = keyboard_state;
            },
            TextFieldOwner::TextInput => {
                if let Some(lock) = field {
                    edit = Some((lock.token, FieldEdit::ClearComposition));
                }
            },
            TextFieldOwner::Neither => {},
        }
        let mut disable_input_method = false;
        let mut input_state = self.input_state.take();
        if let Some(mut ime) = input_state {
            disable_input_method = ime.remove_field();
            input_state = Some(ime);
        } else {
            input_state = None;
        }
        self.input_state = input_state;
        // Release ownership of the field
        self.text_field_owner = TextFieldOwner::Neither;
        ReleasePlan { edit, reset_table, disable_input_method }
    }

    /// Stop receiving events for the keyboard of this seat
    pub fn destroy_keyboard(&mut self)
        requires
            old(self).wf(),
        ensures
            final(self).wf(),
            *final(self) == (SeatInfo {
                keyboard_state: None,
                text_field_owner: old(self).owner_without_keyboard(),
                ..*old(self)
            }),
    {
        self.keyboard_state = None;
        if let TextFieldOwner::Keyboard = self.text_field_owner {
            self.text_field_owner = TextFieldOwner::Neither;
        }
    }

    /// The owner of the text field, once whatever the keyboard was composing is gone.
    pub open spec fn owner_without_keyboard(self) -> TextFieldOwner {
        if self.text_field_owner == TextFieldOwner::Keyboard {
            TextFieldOwner::Neither
        } else {
            self.text_field_owner
        }
    }

    /// The seat has a keyboard now, which does not have a keymap yet. A keyboard that it had is
    /// replaced, and what that was composing is no longer followed.
    pub fn new_keyboard(&mut self)
        requires
            old(self).wf(),
        ensures
            final(self).wf(),
            final(self).keyboard_state == Some(
                KeyboardState {
                    xkb_state: None,
                    repeat_settings: RepeatInfo::Disable,
                    repeat_details: None,
                },
            ),
            *final(self) == (SeatInfo {
                keyboard_state: final(self).keyboard_state,
                text_field_owner: old(self).owner_without_keyboard(),
                ..*old(self)
            }),
    {
        self.keyboard_state = Some(KeyboardState::new());
        if let TextFieldOwner::Keyboard = self.text_field_owner {
            self.text_field_owner = TextFieldOwner::Neither;
        }
    }

    /// The keyboard of the seat has a keymap now, with nothing held or composed on it. What was
    /// being composed on the keymap before is no longer followed.
    pub fn set_keymap(&mut self, xkb: KeyEventsState)
        requires
            old(self).wf(),
            old(self).keyboard_state is Some,
            xkb.wf(),
            !xkb.composing(),
        ensures
            final(self).wf(),
            *final(self) == (SeatInfo {
                keyboard_state: Some(
                    KeyboardState { xkb_state: Some(xkb), ..old(self).keyboard_state->0 },
                ),
                text_field_owner: old(self).owner_without_keyboard(),
                ..*old(self)
            }),
    {
        if let Some(keyboard) = self.keyboard_state.take() {
            self.keyboard_state = Some(
                KeyboardState {
                    xkb_state: Some(xkb),
                    repeat_settings: keyboard.repeat_settings,
                    repeat_details: keyboard.repeat_details,
                },
            );
        }
        if let TextFieldOwner::Keyboard = self.text_field_owner {
            self.text_field_owner = TextFieldOwner::Neither;
        }
    }

    /// What a window that gains the focus comes to.
    pub open spec fn entered(
        self,
        after: SeatInfo,
        new_window: SurfaceId,
        window_exists: bool,
        plan: FocusPlan,
    ) -> bool {
        &&& plan.enter == (self.keyboard_focused is None && window_exists)
        &&& plan.enter ==> after == (SeatInfo {
            keyboard_focused: Some(new_window),
            input_state: Self::without_field(self.input_state),
            ..self
        })
        &&& !plan.enter ==> after == self
        &&& plan.disable_input_method == (plan.enter && (self.input_state matches Some(ime)
            && ime.token is Some))
        &&& plan.follow == if plan.enter {
            Some(
                UpdateLoop {
                    phase: UpdatePhase::Check,
                    force: true,
                    tell_input_method: self.input_state is Some,
                },
            )
        } else {
            None
        }
    }

    /// A window gains the focus. If another one has it, or this one is gone, nothing happens.
    pub fn window_focus_enter(&mut self, new_window: SurfaceId, window_exists: bool) -> (plan:
        FocusPlan)
        requires
            old(self).wf(),
        ensures
            final(self).wf(),
            old(self).entered(*final(self), new_window, window_exists, plan),
    {
        if self.keyboard_focused.is_some() || !window_exists {
            return FocusPlan { enter: false, disable_input_method: false, follow: None };
        }
        let mut disable_input_method = false;
        let mut input_state = self.input_state.take();
        if let Some(mut ime) = input_state {
            // We accepted the existing pre-edit on unfocus, and so text input being
            // active doesn't make sense
            // However, at that time the window was unfocused, so the disable request
            // then was not respected.
            // Because of this, we disable again upon refocus
            disable_input_method = ime.remove_field();
            input_state = Some(ime);
        } else {
            input_state = None;
        }
        self.input_state = input_state;
        self.keyboard_focused = Some(new_window);
        let follow = Some(UpdateLoop::new(true, self.input_state.is_some()));
        FocusPlan { enter: true, disable_input_method, follow }
    }

    /// The focused window loses the focus. `props` are the properties of its text fields, if it
    /// still exists. Returns the window, and how its composed text is given up.
    pub fn window_focus_leave(&mut self, props: Option<TextInputProperties>) -> (left: Option<
        (SurfaceId, ReleasePlan),
    >)
        requires
            old(self).wf(),
        ensures
            final(self).wf(),
            left is None ==> *final(self) == *old(self),
            old(self).focus_left(props, *final(self), left),
    {
        match self.keyboard_focused {
            None => None,
            Some(window) => {
                self.keyboard_focused = None;
                let field = match props {
                    Some(props) => future_lock(
                        props.active_text_field,
                        props.active_text_field_updated,
                    ),
                    // The window might have been dropped. However, we need to update our state
                    None => None,
                };
                let ghost before = *self;
                let plan = self.force_release_preedit(field);
                assert(before.release_edit(field, plan.edit) == old(self).release_edit(
                    field,
                    plan.edit,
                ));
                Some((window, plan))
            },
        }
    }

    /// Where a key goes.
    pub open spec fn route_for(self, state: KeyState, window_exists: bool) -> KeyRoute {
        if self.keyboard_focused is None || !window_exists {
            KeyRoute::Ignore
        } else if state == KeyState::Down {
            KeyRoute::KeyDown
        } else {
            KeyRoute::KeyUp
        }
    }

    /// Where a key goes.
    pub fn route_key(&self, state: KeyState, window_exists: bool) -> (route: KeyRoute)
        ensures
            route == self.route_for(state, window_exists),
    {
        if self.keyboard_focused.is_none() || !window_exists {
            return KeyRoute::Ignore;
        }
        match state {
            KeyState::Down => KeyRoute::KeyDown,
            KeyState::Up => KeyRoute::KeyUp,
        }
    }

    /// Whether the input method's text has to be given up before a key press is typed.
    pub fn key_forces_update(&self) -> (force: bool)
        ensures
            force == (self.text_field_owner == TextFieldOwner::TextInput),
    {
        matches!(self.text_field_owner, TextFieldOwner::TextInput)
    }

    /// Whether the keyboard's text has to be given up before the input method edits.
    pub fn input_method_forces_update(&self) -> (force: bool)
        ensures
            force == (self.text_field_owner == TextFieldOwner::Keyboard),
    {
        matches!(self.text_field_owner, TextFieldOwner::Keyboard)
    }

    /// The input method has edited the field, and it holds preedit text or not.
    pub fn input_method_edited(&mut self, has_preedit: bool)
        requires
            old(self).wf(),
            old(self).text_field_owner != TextFieldOwner::Keyboard,
        ensures
            final(self).wf(),
            *final(self) == (SeatInfo { text_field_owner: owner_edited(has_preedit), ..*old(self) }),
    {
        if has_preedit {
            self.text_field_owner = TextFieldOwner::TextInput;
        } else {
            self.text_field_owner = TextFieldOwner::Neither;
        }
    }

    /// Types a key press into the focused field, which is locked as `ime`. Claims or gives up the
    /// field, as the composition starts or ends. Whatever came of it, the input method, if there is
    /// one, has to be told about the field.
    ///
    /// The compose table completes or cancels a sequence only while one is under way.
    pub fn handle_key_press<H: InputHandler>(
        &mut self,
        key: ComposeKey,
        is_backspace: bool,
        answer: ComposeAnswer,
        event: &KeyEvent,
        ime: &mut H,
    ) -> (handled: KeyboardHandled)
        requires
            old(self).wf(),
            old(self).xkb() is Some,
            old(self).text_field_owner != TextFieldOwner::TextInput,
            answer is Nothing ==> !old(self).composing(),
            answer is Composed || answer is Cancelled ==> old(self).composing(),
            strings::fits_in_memory(event.key.typed()),
            simulate::can_compose(
                *old(ime),
                old(self).xkb()->0.outcome(key, is_backspace, answer),
            ),
        ensures
            final(self).wf(),
            final(self).same_focus(*old(self)),
            final(self).input_state == old(self).input_state,
            final(self).text_field_owner == (if old(self).xkb()->0.next_keys(
                key,
                is_backspace,
                answer,
            ) is Some {
                TextFieldOwner::Keyboard
            } else {
                TextFieldOwner::Neither
            }),
            final(self).xkb()->0.sequence() == old(self).xkb()->0.keys_after(
                key,
                is_backspace,
                answer,
            ),
            handled == KeyboardHandled::NoUpdate || handled == xkb::handled_as(
                old(self).xkb()->0.outcome(key, is_backspace, answer),
            ),
            simulate::composed(
                *old(ime),
                *final(ime),
                *event,
                old(self).xkb()->0.outcome(key, is_backspace, answer),
                handled != KeyboardHandled::NoUpdate,
            ),
    {
        let mut handled = KeyboardHandled::NoUpdate;
        let mut keyboard_state = self.keyboard_state.take();
        if let Some(mut keyboard) = keyboard_state {
            let mut xkb_state = keyboard.xkb_state.take();
            if let Some(mut xkb) = xkb_state {
                handled = xkb::xkb_simulate_input(&mut xkb, key, is_backspace, answer, event, ime);
                xkb_state = Some(xkb);
            } else {
                xkb_state = None;
            }
            keyboard.xkb_state = xkb_state;
            keyboard_state = Some(keyboard);
        } else {
            keyboard_state = None;
        }
        self.keyboard_state = keyboard_state;
        match handled {
            KeyboardHandled::UpdatedReleasingCompose => {
                self.text_field_owner = TextFieldOwner::Neither;
            },
            KeyboardHandled::UpdatedClaimingCompose => {
                self.text_field_owner = TextFieldOwner::Keyboard;
            },
            KeyboardHandled::UpdatedRetainingCompose => {},
            KeyboardHandled::UpdatedNoCompose => {},
            KeyboardHandled::NoUpdate => {},
        }
        handled
    }
}

/// Where the following of a window's text fields stands.
#[derive(Clone, Copy, Debug, PartialEq, Eq, Structural)]
pub enum UpdatePhase {
    /// Look at the properties from the start.
    Check,
    /// The field before was given up: the next one becomes active.
    Switch,
    /// The active field was given up: it is taken up again, with its new content.
    Resync,
}

/// What to do next in following a window's text fields.
#[derive(Clone, Copy, Debug, PartialEq, Eq, Structural)]
pub enum UpdateWork {
    /// Give up the composed text.
    ForceRelease(Option<FutureInputLock>),
    /// Enable the input method on a field if needed, and send its state.
    SyncState(TextFieldToken),
    /// Send the cursor rectangle of a field.
    SyncCursor(TextFieldToken),
    Finished,
}

/// A step of following a window's text fields.
#[derive(Clone, Copy, Debug, PartialEq, Eq, Structural)]
pub struct UpdateStep {
    /// Properties to store, before the work.
    pub store: Option<TextInputProperties>,
    pub work: UpdateWork,
}

/// Following the changes that an application made to its text fields.
///
/// Each step may run code of the application, which may in turn change the focused field or
/// update it. Because of that, the properties are read anew for each step.
#[derive(Clone, Copy, Debug, PartialEq, Eq, Structural)]
pub struct UpdateLoop {
    pub phase: UpdatePhase,
    /// Whether the field is treated as updated, whatever the application says.
    pub force: bool,
    /// Whether there is an input method, and it is to be told.
    pub tell_input_method: bool,
}

/// The properties with the next field made active.
pub open spec fn switched(props: TextInputProperties) -> TextInputProperties {
    TextInputProperties { active_text_field: props.next_text_field, ..props }
}

/// The properties once every change was followed.
pub open spec fn settled(props: TextInputProperties) -> TextInputProperties {
    TextInputProperties {
        active_text_field_updated: false,
        active_text_layout_changed: false,
        ..props
    }
}

impl UpdateLoop {
    /// Starts to follow the changes.
    pub fn new(force: bool, tell_input_method: bool) -> (it: UpdateLoop)
        ensures
            it == (UpdateLoop { phase: UpdatePhase::Check, force, tell_input_method }),
    {
        UpdateLoop { phase: UpdatePhase::Check, force, tell_input_method }
    }

    /// The field to tell the input method about.
    pub open spec fn told_field(self, props: TextInputProperties) -> Option<TextFieldToken> {
        if self.tell_input_method {
            props.active_text_field
        } else {
            None
        }
    }

    /// The active field has its new content, and the input method is told, if it is to be. If the
    /// application has meanwhile focused another field, that is followed next.
    pub open spec fn resync(self, props: TextInputProperties) -> (UpdateLoop, UpdateStep) {
        let clean = settled(props);
        let calm = UpdateLoop { force: false, phase: UpdatePhase::Check, ..self };
        match self.told_field(props) {
            Some(field) => (
                calm,
                UpdateStep { store: Some(clean), work: UpdateWork::SyncState(field) },
            ),
            None => if clean.next_text_field != clean.active_text_field {
                (
                    UpdateLoop { phase: UpdatePhase::Switch, ..calm },
                    UpdateStep {
                        store: Some(clean),
                        work: UpdateWork::ForceRelease(lock_of(clean.active_text_field, false)),
                    },
                )
            } else {
                (calm, UpdateStep { store: Some(clean), work: UpdateWork::Finished })
            },
        }
    }

    /// The active field is the focused one. What is done depends on what the application changed.
    pub open spec fn decide(self, props: TextInputProperties) -> (UpdateLoop, UpdateStep) {
        let check = UpdateLoop { phase: UpdatePhase::Check, ..self };
        if props.active_text_field_updated || self.force {
            (
                UpdateLoop { phase: UpdatePhase::Resync, force: false, ..self },
                UpdateStep {
                    store: None,
                    work: UpdateWork::ForceRelease(lock_of(props.active_text_field, true)),
                },
            )
        } else if props.active_text_layout_changed && self.told_field(props) is Some {
            (
                check,
                UpdateStep {
                    store: Some(
                        TextInputProperties { active_text_layout_changed: false, ..props },
                    ),
                    work: UpdateWork::SyncCursor(self.told_field(props)->0),
                },
            )
        } else {
            (check, UpdateStep { store: None, work: UpdateWork::Finished })
        }
    }

    /// What the next step is.
    pub open spec fn next(self, props: TextInputProperties) -> (UpdateLoop, UpdateStep) {
        match self.phase {
            UpdatePhase::Check => if props.next_text_field != props.active_text_field {
                (
                    UpdateLoop { phase: UpdatePhase::Switch, ..self },
                    UpdateStep {
                        store: None,
                        work: UpdateWork::ForceRelease(
                            lock_of(props.active_text_field, props.active_text_field_updated),
                        ),
                    },
                )
            } else {
                self.decide(props)
            },
            UpdatePhase::Switch => self.resync(switched(props)),
            UpdatePhase::Resync => self.resync(props),
        }
    }

    /// How many more steps there may be, as long as the application changes nothing.
    pub open spec fn steps_left(self, props: TextInputProperties) -> nat {
        let elsewhere = props.next_text_field != props.active_text_field;
        match self.phase {
            UpdatePhase::Check => if elsewhere || props.active_text_field_updated || self.force {
                5
            } else if props.active_text_layout_changed {
                2
            } else {
                1
            },
            UpdatePhase::Switch => 4,
            UpdatePhase::Resync => if elsewhere {
                6
            } else {
                4
            },
        }
    }

    fn exec_resync(&mut self, props: TextInputProperties) -> (step: UpdateStep)
        ensures
            (*final(self), step) == old(self).resync(props),
    {
        self.force = false;
        self.phase = UpdatePhase::Check;
        // The pre-edit is definitely invalid at this point
        let clean = TextInputProperties {
            active_text_field_updated: false,
            active_text_layout_changed: false,
            ..props
        };
        if self.tell_input_method {
            if let Some(field) = clean.active_text_field {
                return UpdateStep { store: Some(clean), work: UpdateWork::SyncState(field) };
            }
        }
        if clean.next_text_field != clean.active_text_field {
            self.phase = UpdatePhase::Switch;
            UpdateStep {
                store: Some(clean),
                work: UpdateWork::ForceRelease(future_lock(clean.active_text_field, false)),
            }
        } else {
            UpdateStep { store: Some(clean), work: UpdateWork::Finished }
        }
    }

    fn exec_decide(&mut self, props: TextInputProperties) -> (step: UpdateStep)
        ensures
            (*final(self), step) == old(self).decide(props),
    {
        if props.active_text_field_updated || self.force {
            self.phase = UpdatePhase::Resync;
            self.force = false;
            return UpdateStep {
                store: None,
                work: UpdateWork::ForceRelease(future_lock(props.active_text_field, true)),
            };
        }
        self.phase = UpdatePhase::Check;
        if props.active_text_layout_changed && self.tell_input_method {
            if let Some(field) = props.active_text_field {
                return UpdateStep {
                    store: Some(
                        TextInputProperties { active_text_layout_changed: false, ..props },
                    ),
                    work: UpdateWork::SyncCursor(field),
                };
            }
        }
        // If there were no other updates from the application, then we can finish the loop
        UpdateStep { store: None, work: UpdateWork::Finished }
    }

    /// Decides the next step, from the properties as they are now. As long as the application
    /// changes nothing, the steps come to an end.
    pub fn step(&mut self, props: TextInputProperties) -> (step: UpdateStep)
        ensures
            (*final(self), step) == old(self).next(props),
            step.work != UpdateWork::Finished ==> final(self).steps_left(
                match step.store {
                    Some(stored) => stored,
                    None => props,
                },
            ) < old(self).steps_left(props),
    {
        match self.phase {
            UpdatePhase::Check => {
                if props.next_text_field != props.active_text_field {
                    self.phase = UpdatePhase::Switch;
                    UpdateStep {
                        store: None,
                        work: UpdateWork::ForceRelease(
                            future_lock(
                                props.active_text_field,
                                props.active_text_field_updated,
                            ),
                        ),
                    }
                } else {
                    self.exec_decide(props)
                }
            },
            UpdatePhase::Switch => {
                // Releasing the field might have called into application code, which might in
                // turn have changed the focused field. Because of that, we synchronise which
                // field will be active now. Giving up the field before has left the input method
                // disabled, so the new field is taken up like one that was updated
                let props = TextInputProperties {
                    active_text_field: props.next_text_field,
                    ..props
                };
                self.exec_resync(props)
            },
            UpdatePhase::Resync => self.exec_resync(props),
        }
    }
}

/// When the changes have been followed to the end, the focused field is the active one, and no
/// update waits: unless the application has been at work since, there is nothing left to do.
pub proof fn law_update_ends_in_the_focused_field(it: UpdateLoop, props: TextInputProperties)
    requires
        it.next(props).1.work == UpdateWork::Finished,
    ensures
        ({
            let end = match it.next(props).1.store {
                Some(stored) => stored,
                None => props,
            };
            &&& end.active_text_field == end.next_text_field
            &&& !end.active_text_field_updated
            &&& it.next(props).0.next(end).1.work == UpdateWork::Finished
        }),
{
}

/// Where a key, or a change that the input method wants, stands on its way into a text field.
#[derive(Clone, Copy, Debug, PartialEq, Eq, Structural)]
pub enum EditPhase {
    Start,
    /// A press was offered to the handler.
    Offered,
    /// The changes that the application made are followed, before the field is edited.
    Following { it: UpdateLoop, by_keyboard: bool },
    /// The field is locked, to type the key into it.
    Typing(TextFieldToken),
    /// The field is locked, to apply the changes of the input method to it.
    Applying(TextFieldToken),
    /// The input method is being told about the field, which is still locked.
    Telling(TextFieldToken),
    /// The lock on the field is being given back.
    Releasing(TextFieldToken),
    Finished,
}

/// What happens to an edit on its way.
#[derive(Clone, Copy, Debug, PartialEq, Eq, Structural)]
pub enum EditEvent {
    /// A key arrived. `window_exists` says whether the focused window still does.
    Key { state: KeyState, window_exists: bool },
    /// The input method is done with what it wants to change.
    InputMethodDone { window_exists: bool },
    /// The handler took a press, or did not.
    Handled(bool),
    /// The properties of the window's text fields, as they are now.
    Properties(TextInputProperties),
    /// The key was typed, with [`SeatInfo::handle_key_press`].
    Typed,
    /// The changes were applied, and noted with [`SeatInfo::input_method_edited`].
    Applied,
    /// The input method was told.
    Told,
    /// The lock was given back.
    Released,
}

/// What to do next for an edit. Properties that come with it are stored first.
#[derive(Clone, Copy, Debug, PartialEq, Eq, Structural)]
pub enum EditAction {
    /// Ask the handler whether it takes the press.
    OfferKey,
    /// Tell the handler that a key was released.
    TellKeyUp,
    /// Read the properties of the window's text fields.
    ReadProperties,
    /// Do this work, and then read the properties anew.
    Follow { store: Option<TextInputProperties>, work: UpdateWork },
    /// Lock the field for editing, and type the key into it.
    Type { store: Option<TextInputProperties>, field: TextFieldToken },
    /// Lock the field for editing, and apply the changes of the input method to it.
    Apply { store: Option<TextInputProperties>, field: TextFieldToken },
    /// Enable the input method on the field if needed, and send its state.
    TellInputMethod(TextFieldToken),
    /// Give back the lock on the field.
    Release(TextFieldToken),
    /// There is nothing more to do.
    Finish { store: Option<TextInputProperties> },
    /// The event is not one that is waited for.
    Wait,
}

impl EditPhase {
    /// How an edit begins to follow the changes that the application made. The input method is not
    /// told of them here. If the other one owns the field, its text is given up in any case.
    pub open spec fn follow(force: bool, by_keyboard: bool) -> (EditPhase, EditAction) {
        (
            EditPhase::Following {
                it: UpdateLoop { phase: UpdatePhase::Check, force, tell_input_method: false },
                by_keyboard,
            },
            EditAction::ReadProperties,
        )
    }

    /// What comes after the next step of following the changes: another one, or the field that is
    /// active in the end is edited, or if there is none, nothing.
    pub open spec fn followed(
        it: UpdateLoop,
        by_keyboard: bool,
        props: TextInputProperties,
    ) -> (EditPhase, EditAction) {
        let (next, step) = it.next(props);
        let end = match step.store {
            Some(stored) => stored,
            None => props,
        };
        if step.work != UpdateWork::Finished {
            (
                EditPhase::Following { it: next, by_keyboard },
                EditAction::Follow { store: step.store, work: step.work },
            )
        } else {
            match end.active_text_field {
                None => (EditPhase::Finished, EditAction::Finish { store: step.store }),
                Some(field) => if by_keyboard {
                    (EditPhase::Typing(field), EditAction::Type { store: step.store, field })
                } else {
                    (EditPhase::Applying(field), EditAction::Apply { store: step.store, field })
                },
            }
        }
    }

    /// What comes after an event.
    pub open spec fn next(self, seat: SeatInfo, event: EditEvent) -> (EditPhase, EditAction) {
        match (self, event) {
            (EditPhase::Start, EditEvent::Key { state, window_exists }) => if seat.keyboard_focused
                is None || !window_exists {
                (EditPhase::Finished, EditAction::Finish { store: None })
            } else if state == KeyState::Down {
                (EditPhase::Offered, EditAction::OfferKey)
            } else {
                (EditPhase::Finished, EditAction::TellKeyUp)
            },
            (EditPhase::Start, EditEvent::InputMethodDone { window_exists }) => if seat.keyboard_focused
                is None || !window_exists {
                (EditPhase::Finished, EditAction::Finish { store: None })
            } else {
                Self::follow(seat.text_field_owner == TextFieldOwner::Keyboard, false)
            },
            (EditPhase::Offered, EditEvent::Handled(taken)) => if taken {
                (EditPhase::Finished, EditAction::Finish { store: None })
            } else {
                Self::follow(seat.text_field_owner == TextFieldOwner::TextInput, true)
            },
            (EditPhase::Following { it, by_keyboard }, EditEvent::Properties(props)) =>
                Self::followed(it, by_keyboard, props),
            (EditPhase::Typing(field), EditEvent::Typed) => if seat.input_state is Some {
                (EditPhase::Telling(field), EditAction::TellInputMethod(field))
            } else {
                (EditPhase::Releasing(field), EditAction::Release(field))
            },
            (EditPhase::Telling(field), EditEvent::Told) => (
                EditPhase::Releasing(field),
                EditAction::Release(field),
            ),
            (EditPhase::Applying(field), EditEvent::Applied) => (
                EditPhase::Releasing(field),
                EditAction::Release(field),
            ),
            (EditPhase::Releasing(_), EditEvent::Released) => (
                EditPhase::Finished,
                EditAction::Finish { store: None },
            ),
            _ => (self, EditAction::Wait),
        }
    }

    fn exec_follow(&mut self, force: bool, by_keyboard: bool) -> (action: EditAction)
        ensures
            (*final(self), action) == Self::follow(force, by_keyboard),
    {
        *self = EditPhase::Following { it: UpdateLoop::new(force, false), by_keyboard };
        EditAction::ReadProperties
    }

    fn exec_followed(
        &mut self,
        it: UpdateLoop,
        by_keyboard: bool,
        props: TextInputProperties,
    ) -> (action: EditAction)
        ensures
            (*final(self), action) == Self::followed(it, by_keyboard, props),
    {
        let mut it = it;
        let step = it.step(props);
        match step.work {
            UpdateWork::Finished => {
                let end = match step.store {
                    Some(stored) => stored,
                    None => props,
                };
                match end.active_text_field {
                    None => {
                        *self = EditPhase::Finished;
                        EditAction::Finish { store: step.store }
                    },
                    Some(field) => {
                        if by_keyboard {
                            *self = EditPhase::Typing(field);
                            EditAction::Type { store: step.store, field }
                        } else {
                            *self = EditPhase::Applying(field);
                            EditAction::Apply { store: step.store, field }
                        }
                    },
                }
            },
            work => {
                *self = EditPhase::Following { it, by_keyboard };
                EditAction::Follow { store: step.store, work }
            },
        }
    }

    /// Decides what to do after an event.
    ///
    /// A press goes to the handler first, and if that takes it, nowhere else. Otherwise the changes
    /// that the application made are followed, without telling the input method. The field that is
    /// active then is typed into, and the input method, if there is one, is told in any case: the
    /// changes that were followed may not be known to it yet.
    pub fn step(&mut self, seat: &SeatInfo, event: EditEvent) -> (action: EditAction)
        ensures
            (*final(self), action) == old(self).next(*seat, event),
    {
        match (*self, event) {
            (EditPhase::Start, EditEvent::Key { state, window_exists }) => {
                match seat.route_key(state, window_exists) {
                    KeyRoute::Ignore => {
                        *self = EditPhase::Finished;
                        EditAction::Finish { store: None }
                    },
                    KeyRoute::KeyUp => {
                        *self = EditPhase::Finished;
                        EditAction::TellKeyUp
                    },
                    KeyRoute::KeyDown => {
                        *self = EditPhase::Offered;
                        EditAction::OfferKey
                    },
                }
            },
            (EditPhase::Start, EditEvent::InputMethodDone { window_exists }) => {
                if seat.keyboard_focused.is_none() || !window_exists {
                    *self = EditPhase::Finished;
                    EditAction::Finish { store: None }
                } else {
                    self.exec_follow(seat.input_method_forces_update(), false)
                }
            },
            (EditPhase::Offered, EditEvent::Handled(taken)) => {
                if taken {
                    *self = EditPhase::Finished;
                    EditAction::Finish { store: None }
                } else {
                    self.exec_follow(seat.key_forces_update(), true)
                }
            },
            (EditPhase::Following { it, by_keyboard }, EditEvent::Properties(props)) => {
                self.exec_followed(it, by_keyboard, props)
            },
            (EditPhase::Typing(field), EditEvent::Typed) => {
                if seat.input_state.is_some() {
                    *self = EditPhase::Telling(field);
                    EditAction::TellInputMethod(field)
                } else {
                    *self = EditPhase::Releasing(field);
                    EditAction::Release(field)
                }
            },
            (EditPhase::Telling(field), EditEvent::Told) => {
                *self = EditPhase::Releasing(field);
                EditAction::Release(field)
            },
            (EditPhase::Applying(field), EditEvent::Applied) => {
                *self = EditPhase::Releasing(field);
                EditAction::Release(field)
            },
            (EditPhase::Releasing(_), EditEvent::Released) => {
                *self = EditPhase::Finished;
                EditAction::Finish { store: None }
            },
            _ => EditAction::Wait,
        }
    }
}

/// A press that the handler takes goes no further. One that it does not take makes the input method
/// give up its text first, if it owns the field, whatever the application did.
pub proof fn law_handler_comes_first(seat: SeatInfo, props: TextInputProperties)
    ensures
        EditPhase::Offered.next(seat, EditEvent::Handled(true)) == (
            EditPhase::Finished,
            EditAction::Finish { store: None },
        ),
        seat.text_field_owner == TextFieldOwner::TextInput ==> {
            let following = EditPhase::Offered.next(seat, EditEvent::Handled(false)).0;
            following.next(seat, EditEvent::Properties(props)).1 matches EditAction::Follow {
                work: UpdateWork::ForceRelease(_),
                ..
            }
        },
{
}

/// While the changes before an edit are followed, the input method is not told; the only work is to
/// give up text. The field that is edited in the end is the focused one.
pub proof fn law_edits_go_to_the_focused_field(
    it: UpdateLoop,
    by_keyboard: bool,
    props: TextInputProperties,
)
    requires
        !it.tell_input_method,
    ensures
        match EditPhase::followed(it, by_keyboard, props) {
            (EditPhase::Following { it: next, .. }, EditAction::Follow { work, .. }) => work
                is ForceRelease && !next.tell_input_method,
            (EditPhase::Typing(field), EditAction::Type { store, field: typed }) => {
                let end = match store {
                    Some(stored) => stored,
                    None => props,
                };
                by_keyboard && typed == field && end.active_text_field == Some(field)
                    && end.next_text_field == Some(field)
            },
            (EditPhase::Applying(field), EditAction::Apply { store, field: applied }) => {
                let end = match store {
                    Some(stored) => stored,
                    None => props,
                };
                !by_keyboard && applied == field && end.active_text_field == Some(field)
                    && end.next_text_field == Some(field)
            },
            (EditPhase::Finished, EditAction::Finish { store }) => {
                let end = match store {
                    Some(stored) => stored,
                    None => props,
                };
                end.active_text_field is None && end.next_text_field is None
            },
            _ => false,
        },
{
}

/// A field that was typed into is described to the input method, if there is one, and then given
/// back; one that the input method edited is given back as well.
pub proof fn law_typed_field_is_told_and_released(seat: SeatInfo, field: TextFieldToken)
    ensures
        ({
            let typed = EditPhase::Typing(field).next(seat, EditEvent::Typed);
            let told = typed.0.next(seat, EditEvent::Told);
            let released = (EditPhase::Releasing(field), EditAction::Release(field));
            &&& seat.input_state is Some ==> typed.1 == EditAction::TellInputMethod(field) && told
                == released
            &&& seat.input_state is None ==> typed == released
            &&& EditPhase::Applying(field).next(seat, EditEvent::Applied) == released
            &&& released.0.next(seat, EditEvent::Released).0 == EditPhase::Finished
        }),
{
}

/// A field that was focused is taken up, even if nothing in it was updated: whenever the field
/// before was given up for another, the input method is told about the new one next, if it is to be
/// told.
pub proof fn law_focused_field_is_taken_up(it: UpdateLoop, props: TextInputProperties)
    requires
        it.phase == UpdatePhase::Check,
        props.next_text_field != props.active_text_field,
    ensures
        it.next(props).1.work is ForceRelease,
        it.tell_input_method ==> (props.next_text_field matches Some(field) ==> it.next(
            props,
        ).0.next(props).1.work == UpdateWork::SyncState(field)),
        it.next(props).0.next(props).1.store == Some(settled(switched(props))),
{
}

impl SeatInfo {
    /// The steps for an updated field: the input method is told, unless it made the change, and
    /// the keyboard gives up its composition, unless it made the change.
    pub open spec fn updated_steps(
        self,
        token: TextFieldToken,
        event: Event,
        cause: TextFieldChangeCause,
    ) -> Seq<FieldStep> {
        let tell = self.input_state is Some && cause != TextFieldChangeCause::TextInput;
        let cancel = self.composing() && cause != TextFieldChangeCause::Keyboard;
        let told = if !tell {
            Seq::empty()
        } else if event == Event::LayoutChanged {
            seq![FieldStep::SyncCursor]
        } else {
            seq![FieldStep::SyncState(ChangeCause::Other)]
        };
        let cancelled = if cancel {
            seq![FieldStep::ClearComposition]
        } else {
            Seq::empty()
        };
        if tell || cancel {
            seq![FieldStep::Lock(token, false)] + told + cancelled + seq![FieldStep::Unlock(token)]
        } else {
            Seq::empty()
        }
    }

    /// The steps for another focused field: the input method moves over to it, and the keyboard
    /// gives up its composition.
    pub open spec fn changed_steps(
        self,
        from: Option<TextFieldToken>,
        to: Option<TextFieldToken>,
    ) -> Seq<FieldStep> {
        let left = match from {
            Some(from) if self.input_state is Some => seq![
                FieldStep::Lock(from, true),
                FieldStep::ClearComposition,
                FieldStep::Unlock(from),
            ],
            _ => Seq::empty(),
        };
        let entered = match to {
            Some(to) if self.input_state is Some => seq![
                FieldStep::Lock(to, false),
                FieldStep::SyncState(ChangeCause::Other),
                FieldStep::Unlock(to),
            ],
            _ => Seq::empty(),
        };
        let cancelled = if self.composing() {
            seq![
                FieldStep::Lock(from->0, false),
                FieldStep::ClearComposition,
                FieldStep::Unlock(from->0),
            ]
        } else {
            Seq::empty()
        };
        left + entered + cancelled
    }

    /// Whether a change ends the keyboard's composition.
    pub open spec fn change_cancels(self, change: TextFieldChange) -> bool {
        self.composing() && match change {
            TextFieldChange::Updated(_, _, cause) => cause != TextFieldChangeCause::Keyboard,
            TextFieldChange::Changed { .. } => true,
        }
    }

    /// Stops the keyboard's composition. Returns whether there was one.
    fn cancel_composing(&mut self) -> (was_composing: bool)
        requires
            old(self).wf(),
        ensures
            final(self).wf(),
            final(self).same_focus(*old(self)),
            final(self).input_state == old(self).input_state,
            was_composing == old(self).composing(),
            !final(self).composing(),
            final(self).text_field_owner == (if was_composing {
                TextFieldOwner::Neither
            } else {
                old(self).text_field_owner
            }),
    {
        let mut was_composing = false;
        let mut keyboard_state = self.keyboard_state.take();
        if let Some(mut keyboard) = keyboard_state {
            let mut xkb_state = keyboard.xkb_state.take();
            if let Some(mut xkb) = xkb_state {
                was_composing = xkb.cancel_composing();
                xkb_state = Some(xkb);
            } else {
                xkb_state = None;
            }
            keyboard.xkb_state = xkb_state;
            keyboard_state = Some(keyboard);
        } else {
            keyboard_state = None;
        }
        self.keyboard_state = keyboard_state;
        if was_composing {
            self.text_field_owner = TextFieldOwner::Neither;
        }
        was_composing
    }
}

impl TextFieldChange {
    /// Follows a change of a window's text field. Changes of windows other than the focused one do
    /// not concern the seat.
    ///
    /// A composition always takes place in a field, so there is one to leave while composing.
    /// If a composition was stopped, the compose table has to be reset.
    pub fn apply(self, seat: &mut SeatInfo, window: SurfaceId) -> (steps: Vec<FieldStep>)
        requires
            old(seat).wf(),
            self matches TextFieldChange::Changed { from, .. } ==> (old(seat).composing()
                ==> from is Some),
        ensures
            final(seat).wf(),
            old(seat).keyboard_focused != Some(window) ==> *final(seat) == *old(seat),
            old(seat).changed_by(self, window, *final(seat), steps@),
    {
        let mut steps: Vec<FieldStep> = Vec::new();
        if seat.keyboard_focused != Some(window) {
            return steps;
        }
        match self {
            TextFieldChange::Updated(event_token, event, cause) => {
                let mut locked = false;
                if seat.input_state.is_some() && cause != TextFieldChangeCause::TextInput {
                    steps.push(FieldStep::Lock(event_token, false));
                    locked = true;
                    match event {
                        Event::LayoutChanged => steps.push(FieldStep::SyncCursor),
                        Event::SelectionChanged | Event::Reset => steps.push(
                            FieldStep::SyncState(ChangeCause::Other),
                        ),
                    }
                }
                if cause != TextFieldChangeCause::Keyboard {
                    if seat.cancel_composing() {
                        if !locked {
                            steps.push(FieldStep::Lock(event_token, false));
                            locked = true;
                        }
                        // Cancel the composition
                        steps.push(FieldStep::ClearComposition);
                    }
                }
                if locked {
                    steps.push(FieldStep::Unlock(event_token));
                }
                assert(steps@ =~= old(seat).updated_steps(event_token, event, cause));
            },
            TextFieldChange::Changed { from, to } => {
                let mut input_state = seat.input_state.take();
                if let Some(mut ime) = input_state {
                    if let Some(from) = from {
                        steps.push(FieldStep::Lock(from, true));
                        steps.push(FieldStep::ClearComposition);
                        steps.push(FieldStep::Unlock(from));
                    }
                    ime.reset(to);
                    if let Some(to) = to {
                        steps.push(FieldStep::Lock(to, false));
                        steps.push(FieldStep::SyncState(ChangeCause::Other));
                        steps.push(FieldStep::Unlock(to));
                    }
                    input_state = Some(ime);
                } else {
                    input_state = None;
                }
                seat.input_state = input_state;
                if seat.cancel_composing() {
                    // If we were composing, we should have been in a text field
                    if let Some(from) = from {
                        steps.push(FieldStep::Lock(from, false));
                        // Cancel the composition
                        steps.push(FieldStep::ClearComposition);
                        steps.push(FieldStep::Unlock(from));
                    }
                }
                assert(steps@ =~= old(seat).changed_steps(from, to));
            },
        }
        steps
    }
}

/// No two seats have the same name.
pub open spec fn distinct_seats(seats: Seq<SeatInfo>) -> bool {
    forall|i: int, j: int|
        0 <= i < j < seats.len() ==> #[trigger] seats[i].id != #[trigger] seats[j].id
}

/// The seat with a name.
pub fn find_seat(seats: &Vec<SeatInfo>, name: SeatName) -> (found: Option<usize>)
    ensures
        match found {
            Some(i) => i < seats@.len() && seats@[i as int].id == name && forall|j: int|
                0 <= j < i ==> (#[trigger] seats@[j]).id != name,
            None => forall|j: int| 0 <= j < seats@.len() ==> (#[trigger] seats@[j]).id != name,
        },
{
    let mut i: usize = 0;
    while i < seats.len()
        invariant
            i <= seats@.len(),
            forall|j: int| 0 <= j < i ==> (#[trigger] seats@[j]).id != name,
        decreases seats.len() - i,
    {
        if seats[i].id == name {
            return Some(i);
        }
        i += 1;
    }
    None
}

/// A seat appears. It gets a name of its own.
pub fn handle_new_seat(
    seats: &mut Vec<SeatInfo>,
    names: &mut Counter,
    has_input_method: bool,
) -> (name: SeatName)
    requires
        distinct_seats(old(seats)@),
        forall|i: int| 0 <= i < old(seats)@.len() ==> (#[trigger] old(seats)@[i]).id.0 < old(names)@,
    ensures
        name == SeatName(old(names)@),
        final(names)@ == crate::util::after(old(names)@),
        distinct_seats(final(seats)@),
        final(seats)@.len() == old(seats)@.len() + 1,
        final(seats)@.drop_last() == old(seats)@,
        final(seats)@.last().id == name,
        final(seats)@.last().wf(),
        final(seats)@.last().keyboard_state is None,
        final(seats)@.last().keyboard_focused is None,
        final(seats)@.last().input_state is Some == has_input_method,
{
    let name = SeatName(names.next());
    seats.push(SeatInfo::new(name, has_input_method));
    assert(seats@.drop_last() =~= old(seats)@);
    name
}

/// A seat disappears. Every other seat is kept, in order.
pub fn remove_seat(seats: &mut Vec<SeatInfo>, name: SeatName)
    requires
        distinct_seats(old(seats)@),
    ensures
        final(seats)@ == old(seats)@.filter(|seat: SeatInfo| seat.id != name),
        distinct_seats(final(seats)@),
{
    proof {
        lemma_filter_one(seats@, name);
    }
    match find_seat(seats, name) {
        Some(i) => {
            let _ = seats.remove(i);
        },
        None => {},
    }
}

/// Of distinct seats at most one has a name.
proof fn lemma_filter_one(seats: Seq<SeatInfo>, name: SeatName)
    requires
        distinct_seats(seats),
    ensures
        forall|i: int|
            0 <= i < seats.len() && (#[trigger] seats[i]).id == name ==> seats.filter(
                |seat: SeatInfo| seat.id != name,
            ) == seats.remove(i),
        (forall|i: int| 0 <= i < seats.len() ==> (#[trigger] seats[i]).id != name) ==> seats.filter(
            |seat: SeatInfo| seat.id != name,
        ) == seats,
    decreases seats.len(),
{
    let keep = |seat: SeatInfo| seat.id != name;
    reveal(Seq::filter);
    if seats.len() > 0 {
        let rest = seats.drop_last();
        assert forall|i: int, j: int| 0 <= i < j < rest.len() implies #[trigger] rest[i].id
            != #[trigger] rest[j].id by {
            assert(rest[i] == seats[i] && rest[j] == seats[j]);
        }
        lemma_filter_one(rest, name);
        let last = seats.len() - 1;
        if forall|i: int| 0 <= i < seats.len() ==> (#[trigger] seats[i]).id != name {
            assert forall|i: int| 0 <= i < rest.len() implies (#[trigger] rest[i]).id != name by {
                assert(rest[i] == seats[i]);
            }
            assert(seats.filter(keep) =~= seats);
        }
        assert forall|i: int| 0 <= i < seats.len() && (#[trigger] seats[i]).id
            == name implies seats.filter(keep) == seats.remove(i) by {
            if i == last {
                assert forall|j: int| 0 <= j < rest.len() implies (#[trigger] rest[j]).id
                    != name by {
                    assert(rest[j] == seats[j]);
                }
                assert(seats.remove(i) =~= rest);
            } else {
                assert(rest[i] == seats[i]);
                assert(seats[last].id != name);
                assert(seats.remove(i) =~= rest.remove(i).push(seats.last()));
            }
        }
    }
}

/// Composed text is given up in the field that it is in, if there still is one. What the keyboard
/// composed stays as it was shown, but for the placeholder of a compose key, unless the application
/// has changed the field; in that case, and where an input method composed, nothing is rewritten.
/// Afterwards nobody owns the field.
pub proof fn law_given_up_text_stays(
    before: SeatInfo,
    after: SeatInfo,
    field: Option<FutureInputLock>,
    plan: ReleasePlan,
)
    requires
        before.wf(),
        before.released(after, field, plan),
    ensures
        plan.edit is Some <==> field is Some && before.text_field_owner != TextFieldOwner::Neither,
        plan.edit matches Some((token, edit)) ==> {
            let rewrites = before.text_field_owner == TextFieldOwner::Keyboard
                && !field->0.field_updated;
            &&& token == field->0.token
            &&& rewrites == edit is ReplaceComposition
            &&& edit matches FieldEdit::ReplaceComposition(text) ==> {
                let keys = before.xkb()->0.sequence();
                let shown = crate::xkb::compose::shown(keys);
                &&& keys.len() > 0
                &&& shown == (if keys.last().is_compose() {
                    text@.push('·')
                } else {
                    text@
                })
            }
        },
        after.text_field_owner == TextFieldOwner::Neither && !after.composing(),
        plan.reset_table <==> before.text_field_owner == TextFieldOwner::Keyboard,
        after.keyboard_focused == before.keyboard_focused && after.id == before.id,
        after.input_state is Some == before.input_state is Some,
        after.input_state matches Some(ime) ==> ime.token is None,
        plan.disable_input_method <==> before.input_state is Some
            && before.input_state->0.token is Some,
{
    if before.composing() {
        before.xkb()->0.law_compositions_have_keys();
        before.xkb()->0.law_compositions_leave_what_they_show();
    }
}

/// An input method that loses its field keeps what it counts, and nothing of what it wanted to
/// change; one that has no field is left alone.
pub proof fn law_input_method_without_a_field_waits(state: InputState)
    ensures
        SeatInfo::without_field(None) is None,
        SeatInfo::without_field(Some(state)) matches Some(ime) && {
            &&& ime.token is None
            &&& ime.active_window == state.active_window && ime.commit_count == state.commit_count
            &&& ime.changed == state.changed
            &&& state.token is Some ==> ime.commit_string is None && ime.preedit_string is None
                && ime.delete_surrounding_before == 0 && ime.delete_surrounding_after == 0
            &&& state.token is None ==> ime == state
        },
{
}

/// One window is focused at a time: a window gains the focus only if it exists and no other has it.
/// Its active field is then given up and taken up again, whatever the application says of it, and
/// the input method is told of it, if there is one.
pub proof fn law_entered_window_takes_up_its_field(
    before: SeatInfo,
    after: SeatInfo,
    window: SurfaceId,
    window_exists: bool,
    plan: FocusPlan,
    props: TextInputProperties,
)
    requires
        before.entered(after, window, window_exists, plan),
        props.active_text_field == props.next_text_field,
    ensures
        plan.enter <==> before.keyboard_focused is None && window_exists,
        plan.enter ==> after.keyboard_focused == Some(window),
        !plan.enter ==> after.keyboard_focused == before.keyboard_focused && plan.follow is None
            && !plan.disable_input_method,
        after.text_field_owner == before.text_field_owner && after.id == before.id
            && after.keyboard_state == before.keyboard_state,
        plan.enter ==> (plan.follow matches Some(it) && {
            let (next, step) = it.next(props);
            let (last, told) = next.next(props);
            &&& step.work == UpdateWork::ForceRelease(lock_of(props.active_text_field, true))
            &&& before.input_state is Some ==> (props.active_text_field matches Some(field)
                ==> told.work == UpdateWork::SyncState(field))
            &&& before.input_state is None || props.active_text_field is None ==> told.work
                == UpdateWork::Finished
        }),
        plan.enter && before.input_state is Some ==> after.input_state is Some
            && after.input_state->0.token is None && plan.disable_input_method
            == before.input_state->0.token is Some,
{
}

/// Keys go to the handler of the focused window, presses as presses and releases as releases, and
/// nowhere without one.
pub proof fn law_keys_need_a_focused_window(seat: SeatInfo, state: KeyState, window_exists: bool)
    ensures
        seat.route_for(state, window_exists) == KeyRoute::Ignore <==> seat.keyboard_focused is None
            || !window_exists,
        seat.route_for(state, window_exists) == KeyRoute::KeyDown ==> state == KeyState::Down,
        seat.route_for(state, window_exists) == KeyRoute::KeyUp ==> state == KeyState::Up,
        ({
            let key = EditEvent::Key { state, window_exists };
            let action = EditPhase::Start.next(seat, key).1;
            match seat.route_for(state, window_exists) {
                KeyRoute::Ignore => action == (EditAction::Finish { store: None }),
                KeyRoute::KeyUp => action == EditAction::TellKeyUp,
                KeyRoute::KeyDown => action == EditAction::OfferKey,
            }
        }),
{
}

/// The input method may edit only once the keyboard has given up what it was composing, and only in
/// the focused window.
pub proof fn law_keyboard_gives_way_to_the_input_method(
    seat: SeatInfo,
    window_exists: bool,
    props: TextInputProperties,
)
    ensures
        ({
            let done = EditEvent::InputMethodDone { window_exists };
            let (phase, action) = EditPhase::Start.next(seat, done);
            let (_, first) = phase.next(seat, EditEvent::Properties(props));
            let usable = seat.keyboard_focused is Some && window_exists;
            &&& action == EditAction::ReadProperties <==> usable
            &&& !usable ==> phase == EditPhase::Finished && action == (EditAction::Finish {
                store: None,
            })
            &&& usable && seat.text_field_owner == TextFieldOwner::Keyboard ==> (
            first matches EditAction::Follow { work: UpdateWork::ForceRelease(_), .. })
            &&& usable && seat.text_field_owner != TextFieldOwner::Keyboard && props.active_text_field
                == props.next_text_field && !props.active_text_field_updated ==> match props.active_text_field {
                Some(field) => first matches EditAction::Apply { field: applied, .. } && applied
                    == field,
                None => first is Finish,
            }
        }),
{
}

/// An edit waits for what it waits for: any other event leaves it where it is, and a finished edit
/// stays finished.
pub proof fn law_edits_wait_for_their_events(phase: EditPhase, seat: SeatInfo, event: EditEvent)
    ensures
        ({
            let expected = match phase {
                EditPhase::Start => event is Key || event is InputMethodDone,
                EditPhase::Offered => event is Handled,
                EditPhase::Following { .. } => event is Properties,
                EditPhase::Typing(_) => event is Typed,
                EditPhase::Applying(_) => event is Applied,
                EditPhase::Telling(_) => event is Told,
                EditPhase::Releasing(_) => event is Released,
                EditPhase::Finished => false,
            };
            &&& phase.next(seat, event).1 == EditAction::Wait <==> !expected
            &&& !expected ==> phase.next(seat, event).0 == phase
        }),
{
}

/// A field in which nothing changed is left alone.
pub proof fn law_unchanged_fields_are_left_alone(it: UpdateLoop, props: TextInputProperties)
    requires
        it.phase == UpdatePhase::Check,
        !it.force,
        props.active_text_field == props.next_text_field,
        !props.active_text_field_updated,
    ensures
        !props.active_text_layout_changed || !it.tell_input_method
            || props.active_text_field is None ==> it.next(props).1 == (UpdateStep {
            store: None,
            work: UpdateWork::Finished,
        }),
        // A new layout moves the cursor, and leaves what is composed as it is.
        props.active_text_layout_changed && it.tell_input_method ==> (
        props.active_text_field matches Some(field) ==> {
            let (next, step) = it.next(props);
            &&& step.work == UpdateWork::SyncCursor(field)
            &&& step.store matches Some(stored) && !stored.active_text_layout_changed
                && stored.active_text_field == props.active_text_field && stored.next_text_field
                == props.next_text_field && next.next(stored).1.work == UpdateWork::Finished
        }),
{
}

/// A field that was updated, or has to be looked at in any case, is given up as an updated one, and
/// then taken up again with its new content; after that no update waits.
pub proof fn law_updated_fields_are_given_up_and_taken_up(
    it: UpdateLoop,
    props: TextInputProperties,
)
    requires
        it.phase == UpdatePhase::Check,
        it.force || props.active_text_field_updated,
        props.active_text_field == props.next_text_field,
    ensures
        ({
            let (next, step) = it.next(props);
            let (last, told) = next.next(props);
            &&& step.store is None
            &&& step.work == UpdateWork::ForceRelease(lock_of(props.active_text_field, true))
            &&& told.store matches Some(stored) && !stored.active_text_field_updated
                && !stored.active_text_layout_changed && stored.active_text_field
                == props.active_text_field
            &&& !last.force
            &&& it.tell_input_method && props.active_text_field is Some ==> told.work
                == UpdateWork::SyncState(props.active_text_field->0)
            &&& !it.tell_input_method || props.active_text_field is None ==> told.work
                == UpdateWork::Finished
        }),
{
}

/// The field that is left is given up with what the application says of it, and only then is the
/// other one made active.
pub proof fn law_left_fields_are_given_up_first(it: UpdateLoop, props: TextInputProperties)
    requires
        it.phase == UpdatePhase::Check,
        props.active_text_field != props.next_text_field,
    ensures
        ({
            let (next, step) = it.next(props);
            &&& step.store is None
            &&& match props.active_text_field {
                Some(left) => step.work == UpdateWork::ForceRelease(
                    Some(
                        FutureInputLock {
                            token: left,
                            field_updated: props.active_text_field_updated,
                        },
                    ),
                ),
                None => step.work == UpdateWork::ForceRelease(None),
            }
            &&& next.next(props).1.store matches Some(stored) && stored.active_text_field
                == props.next_text_field && stored.next_text_field == props.next_text_field
        }),
{
}

/// An input method that is not to be told is never told.
pub proof fn law_quiet_updates_tell_nobody(it: UpdateLoop, props: TextInputProperties)
    requires
        !it.tell_input_method,
    ensures
        !(it.next(props).1.work is SyncState) && !(it.next(props).1.work is SyncCursor),
        !it.next(props).0.tell_input_method,
{
}

/// Fields are locked and given back in pairs, and whoever made a change is not bothered with it: the
/// input method is told of what others changed, and the keyboard stops composing over it.
pub proof fn law_updates_bother_the_others(
    seat: SeatInfo,
    token: TextFieldToken,
    event: Event,
    cause: TextFieldChangeCause,
)
    ensures
        ({
            let steps = seat.updated_steps(token, event, cause);
            let tells = seat.input_state is Some && cause != TextFieldChangeCause::TextInput;
            let cancels = seat.composing() && cause != TextFieldChangeCause::Keyboard;
            &&& steps.len() == (if tells || cancels {
                2int
            } else {
                0
            }) + (if tells {
                1int
            } else {
                0
            }) + (if cancels {
                1int
            } else {
                0
            })
            &&& steps.len() > 0 ==> steps[0] == FieldStep::Lock(token, false) && steps.last()
                == FieldStep::Unlock(token)
            &&& tells && event == Event::LayoutChanged ==> steps[1] == FieldStep::SyncCursor
            &&& tells && event != Event::LayoutChanged ==> steps[1] == FieldStep::SyncState(
                ChangeCause::Other,
            )
            &&& cancels ==> steps[steps.len() - 2] == FieldStep::ClearComposition
        }),
{
}

/// When another field is focused, the one before no longer shows anything as composed, and the input
/// method, if there is one, is told about the new one; each is locked and given back.
pub proof fn law_focus_moves_between_fields(
    seat: SeatInfo,
    from: TextFieldToken,
    to: TextFieldToken,
)
    requires
        seat.input_state is Some,
    ensures
        ({
            let steps = seat.changed_steps(Some(from), Some(to));
            &&& steps.len() == (if seat.composing() {
                9int
            } else {
                6
            })
            &&& steps[0] == FieldStep::Lock(from, true) && steps[1] == FieldStep::ClearComposition
                && steps[2] == FieldStep::Unlock(from)
            &&& steps[3] == FieldStep::Lock(to, false) && steps[4] == FieldStep::SyncState(
                ChangeCause::Other,
            ) && steps[5] == FieldStep::Unlock(to)
            &&& seat.composing() ==> steps[6] == FieldStep::Lock(from, false) && steps[7]
                == FieldStep::ClearComposition && steps[8] == FieldStep::Unlock(from)
            // Without a field on either side, there is nothing to do there.
            &&& !seat.composing() ==> seat.changed_steps(None, None).len() == 0
                && seat.changed_steps(Some(from), None) == steps.take(3) && seat.changed_steps(
                None,
                Some(to),
            ) == steps.skip(3)
        }),
{
    let steps = seat.changed_steps(Some(from), Some(to));
    if !seat.composing() {
        assert(seat.changed_steps(None, None) =~= Seq::empty());
        assert(seat.changed_steps(Some(from), None) =~= steps.take(3));
        assert(seat.changed_steps(None, Some(to)) =~= steps.skip(3));
    }
}

/// The owner of the text field once the input method edited it: text that is still being composed
/// stays with it.
pub open spec fn owner_edited(has_preedit: bool) -> TextFieldOwner {
    if has_preedit {
        TextFieldOwner::TextInput
    } else {
        TextFieldOwner::Neither
    }
}

/// The field belongs to the input method exactly as long as it is composing text there, and never
/// to the keyboard on its account.
pub proof fn law_input_method_owns_what_it_composes(has_preedit: bool)
    ensures
        (owner_edited(has_preedit) is TextInput) == has_preedit,
        owner_edited(has_preedit) !is Keyboard,
{
}

impl SeatInfo {
    /// The seat after the focus left a window, with the window and what is to be done for it.
    pub open spec fn focus_left(
        self,
        props: Option<TextInputProperties>,
        after: SeatInfo,
        left: Option<(SurfaceId, ReleasePlan)>,
    ) -> bool {
        &&& after.keyboard_focused is None
        &&& left is Some == self.keyboard_focused is Some
        &&& left matches Some((window, plan)) ==> {
            &&& Some(window) == self.keyboard_focused
            &&& self.release_edit(
                match props {
                    Some(props) => lock_of(
                        props.active_text_field,
                        props.active_text_field_updated,
                    ),
                    None => None,
                },
                plan.edit,
            )
            &&& plan.reset_table == self.composing()
            &&& plan.disable_input_method == (self.input_state matches Some(ime)
                && ime.token is Some)
            &&& after.same_focus(SeatInfo { keyboard_focused: None, ..self })
            &&& after.text_field_owner == TextFieldOwner::Neither
            &&& after.input_state == Self::without_field(self.input_state)
        }
    }

    /// A seat whose focus left a window has neither a window nor a text field, and nothing that is
    /// being composed. The window that is told is the one that had the focus.
    pub proof fn law_left_windows_are_told(
        self,
        props: Option<TextInputProperties>,
        after: SeatInfo,
        left: Option<(SurfaceId, ReleasePlan)>,
    )
        requires
            self.wf(),
            after.wf(),
            self.focus_left(props, after, left),
        ensures
            after.keyboard_focused is None,
            left is None ==> self.keyboard_focused is None,
            left matches Some((window, plan)) ==> {
                &&& self.keyboard_focused == Some(window)
                &&& !after.composing()
                &&& after.text_field_owner is Neither
                &&& plan.reset_table == (self.text_field_owner is Keyboard)
                &&& after.input_state is Some == self.input_state is Some
                &&& after.input_state matches Some(ime) ==> ime.token is None && (
                self.input_state->0.token is Some ==> ime.preedit_string is None
                    && ime.commit_string is None)
                &&& plan.disable_input_method ==> self.input_state is Some
                &&& plan.disable_input_method ==> self.input_state->0.token is Some
            },
    {
    }

    /// The seat after a text field of a window changed, and the steps that are taken for it.
    pub open spec fn changed_by(
        self,
        change: TextFieldChange,
        window: SurfaceId,
        after: SeatInfo,
        steps: Seq<FieldStep>,
    ) -> bool {
        &&& self.keyboard_focused != Some(window) ==> steps.len() == 0
        &&& self.keyboard_focused == Some(window) ==> {
            &&& steps == match change {
                TextFieldChange::Updated(token, event, cause) => self.updated_steps(
                    token,
                    event,
                    cause,
                ),
                TextFieldChange::Changed { from, to } => self.changed_steps(from, to),
            }
            &&& after.same_focus(self)
            &&& after.composing() == (self.composing() && !self.change_cancels(change))
            &&& after.text_field_owner == if self.change_cancels(change) {
                TextFieldOwner::Neither
            } else {
                self.text_field_owner
            }
            &&& after.input_state == match (change, self.input_state) {
                (TextFieldChange::Changed { to, .. }, Some(ime)) => Some(
                    InputState::blank(ime.active_window, ime.commit_count, ime.changed, to),
                ),
                (_, ime) => ime,
            }
        }
    }

    /// A change of a field ends what the keyboard was composing there, unless the keyboard made it.
    /// What the input method is composing is not ended by it. A window without the focus does not
    /// concern the seat.
    pub proof fn law_changes_end_compositions(
        self,
        change: TextFieldChange,
        window: SurfaceId,
        after: SeatInfo,
        steps: Seq<FieldStep>,
    )
        requires
            self.wf(),
            after.wf(),
            self.changed_by(change, window, after, steps),
        ensures
            self.keyboard_focused != Some(window) ==> steps.len() == 0,
            self.keyboard_focused == Some(window) ==> {
                &&& after.keyboard_focused == self.keyboard_focused
                &&& after.id == self.id
                &&& after.keyboard_state is Some == self.keyboard_state is Some
                &&& after.keyboard_state is Some ==> after.keyboard_state->0.repeat_details
                    == self.keyboard_state->0.repeat_details
                    && after.keyboard_state->0.repeat_settings
                    == self.keyboard_state->0.repeat_settings
                &&& (change matches TextFieldChange::Updated(_, _, cause) && cause
                    == TextFieldChangeCause::Keyboard) ==> after.composing() == self.composing()
                &&& !(change matches TextFieldChange::Updated(_, _, cause) && cause
                    == TextFieldChangeCause::Keyboard) ==> !after.composing()
                &&& !self.composing() ==> after.text_field_owner == self.text_field_owner
                &&& change is Updated ==> after.input_state == self.input_state
                &&& change matches TextFieldChange::Changed { to, .. } ==> (self.input_state is Some
                    ==> after.input_state is Some && after.input_state->0.token == to
                    && after.input_state->0.preedit_string is None
                    && after.input_state->0.commit_string is None)
            },
    {
    }

    /// Without its keyboard, whatever it was composing is gone; what the input method composes
    /// stays.
    pub proof fn law_keyboards_take_their_compositions_along(self)
        ensures
            self.owner_without_keyboard() !is Keyboard,
            (self.owner_without_keyboard() is TextInput) == (self.text_field_owner is TextInput),
    {
    }
}

} // verus!
