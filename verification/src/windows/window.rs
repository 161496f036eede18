//! The window procedure and the operations that wait for it.

use vstd::prelude::*;

use crate::dialog::FileDialogOptions;
use crate::geometry::{DpPoint, DpSize};
use crate::keyboard::{KbKey, KeyState, Modifiers};
use crate::mouse::{Cursor, MouseButton, MouseButtons, MouseEvent, PixelPoint, WheelDelta};
use crate::text::{Event, TextFieldToken};
use crate::util::Counter;
use crate::window::{FileDialogToken, IdleToken, TimerToken, WindowId, WindowLevel, WindowState};
use crate::windows::messages;
use crate::windows::messages::Message;
use crate::windows::style;
use crate::windows::style::PixelRect;

verus! {

/// The resolution that stands for a scale of 1.
///
/// Windows considers 96 the default value which represents a 1.0 scale factor.
pub const SCALE_TARGET_DPI: u32 = 96;

/// A menu that the platform has built, by its handle.
#[derive(Clone, Copy, Debug, PartialEq, Eq, Structural)]
pub struct MenuHandle(pub u64);

/// An enumeration of operations that might need to be deferred until the handler is dropped.
///
/// We work hard to avoid calling into the handler re-entrantly. Since we use
/// the system's event loop, and since the handler gets a window handle to use, this implies
/// that none of the handle's methods can return control to the system's event loop
/// (because if it did, the system could call back into us with some mouse event, and then
/// we'd try to call the handler again).
///
/// The solution is that for every method of the handle that *wants* to return control to the
/// system's event loop, instead of doing that we queue up a deferrred operation and return
/// immediately. The deferred operations will run whenever the currently running handler
/// method returns.
#[derive(Debug)]
pub enum DeferredOp {
    SaveAs(FileDialogOptions, FileDialogToken),
    Open(FileDialogOptions, FileDialogToken),
    ContextMenu(MenuHandle, DpPoint),
    ShowTitlebar(bool),
    SetPosition(DpPoint),
    SetSize(DpSize),
    SetResizable(bool),
    SetWindowState(WindowState),
    ReleaseMouseCapture,
}

/// What a deferred operation comes down to.
#[derive(Debug)]
pub enum DeferredAction {
    /// Show a dialog for saving, and hand its result to the handler.
    SaveDialog(FileDialogOptions, FileDialogToken),
    /// Show a dialog for opening, and hand its result to the handler.
    OpenDialog(FileDialogOptions, FileDialogToken),
    /// Show a menu at a point of the window.
    TrackMenu(MenuHandle, DpPoint),
    /// Work out the style anew.
    SetStyle { resizable: bool, titlebar: bool },
    /// Move the window, with these placement flags.
    Move(DpPoint, u32),
    /// Resize the window, with these placement flags.
    Resize(DpSize, u32),
    /// Show the window, with this command.
    Show(i32),
    ReleaseCapture,
    /// There is no window to do anything with.
    Nothing,
}

/// Something to do when there is nothing else to do.
#[derive(Clone, Copy, Debug, PartialEq, Eq, Structural)]
pub enum IdleKind {
    /// Run the callback that was stored under this number.
    Callback(u64),
    Token(IdleToken),
}

/// The settings of a window that are not specific to its handler.
#[derive(Clone, Copy, Debug)]
pub struct WindowSettings {
    /// Dots per inch, [`SCALE_TARGET_DPI`] of which are a scale of 1.
    pub dpi_x: u32,
    pub dpi_y: u32,
    /// The size of the client area, in pixels. It is as it was asked for until the system tells it.
    pub width: i32,
    pub height: i32,
    pub has_menu: bool,
    pub has_titlebar: bool,
    pub is_transparent: bool,
    /// For resizable borders, window can still be resized with code.
    pub is_resizable: bool,
    /// Whether the client area is treated as a title bar.
    pub handle_titlebar: bool,
    pub active_text_input: Option<TextFieldToken>,
    /// Is the window focusable ("activatable" in Win32 terminology)?
    /// False for tooltips, to prevent stealing focus from owner window.
    pub is_focusable: bool,
}

/// The state that belongs to the window's handler.
#[derive(Clone, Copy, Debug)]
pub struct WndState {
    pub has_min_size: bool,
    /// Stores a set of all mouse buttons that are currently holding mouse
    /// capture. When the first mouse button is down on our window we enter
    /// capture, and we hold it until the last mouse button is up.
    pub captured_mouse_buttons: MouseButtons,
    /// Is this window the topmost window under the mouse cursor
    pub has_mouse_focus: bool,
    /// When the last press was, in nanoseconds.
    pub last_click_time: u64,
    pub last_click_pos: PixelPoint,
    pub click_count: u8,
}

impl WndState {
    /// The state of a window that was just created, at the time `now`.
    pub fn new(has_min_size: bool, now: u64) -> (state: WndState)
        ensures
            state.has_min_size == has_min_size,
            state.captured_mouse_buttons@ == Set::<MouseButton>::empty(),
            !state.has_mouse_focus,
            state.last_click_time == now,
            state.last_click_pos == (PixelPoint { x: 0, y: 0 }),
            state.click_count == 0,
    {
        WndState {
            has_min_size,
            captured_mouse_buttons: MouseButtons::new(),
            has_mouse_focus: false,
            last_click_time: now,
            last_click_pos: PixelPoint { x: 0, y: 0 },
            click_count: 0,
        }
    }

    /// Whether a press continues a series of clicks: it must come soon enough after the one
    /// before, and close enough to it.
    pub open spec fn continues_series(self, x: int, y: int, click: ClickSettings) -> bool {
        let elapsed = if click.now >= self.last_click_time {
            click.now - self.last_click_time
        } else {
            0
        };
        let dx = if x >= self.last_click_pos.x {
            x - self.last_click_pos.x
        } else {
            self.last_click_pos.x - x
        };
        let dy = if y >= self.last_click_pos.y {
            y - self.last_click_pos.y
        } else {
            self.last_click_pos.y - y
        };
        &&& elapsed < click.double_click_millis * 1_000_000
        &&& dx <= click.box_width / 2
        &&& dy <= click.box_height / 2
    }

    /// The number that a press gets in its series of clicks.
    pub open spec fn next_count(self, x: int, y: int, click: ClickSettings) -> u8 {
        if !self.continues_series(x, y, click) {
            1
        } else if self.click_count == u8::MAX {
            u8::MAX
        } else {
            (self.click_count + 1) as u8
        }
    }

    /// Counts a press, which may continue a series of clicks.
    pub fn count_click(&mut self, x: i32, y: i32, click: ClickSettings) -> (count: u8)
        ensures
            count == old(self).next_count(x as int, y as int, click),
            *final(self) == (WndState {
                click_count: count,
                last_click_time: click.now,
                last_click_pos: PixelPoint { x, y },
                ..*old(self)
            }),
    {
        let elapsed: u64 = if click.now >= self.last_click_time {
            click.now - self.last_click_time
        } else {
            0
        };
        let last: PixelPoint = self.last_click_pos;
        let dx: i64 = if x >= last.x {
            x as i64 - last.x as i64
        } else {
            last.x as i64 - x as i64
        };
        let dy: i64 = if y >= last.y {
            y as i64 - last.y as i64
        } else {
            last.y as i64 - y as i64
        };
        let in_box = dx <= (click.box_width / 2) as i64 && dy <= (click.box_height / 2) as i64;
        let threshold: u64 = click.double_click_millis as u64 * 1_000_000;
        if elapsed >= threshold || !in_box {
            self.click_count = 0;
        }
        self.click_count = self.click_count.saturating_add(1);
        self.last_click_time = click.now;
        self.last_click_pos = PixelPoint { x, y };
        self.click_count
    }

    /// Notes that `button` holds the mouse captured. Returns whether capturing starts.
    pub fn enter_mouse_capture(&mut self, button: MouseButton) -> (start: bool)
        ensures
            start == (old(self).captured_mouse_buttons@ == Set::<MouseButton>::empty()),
            button != MouseButton::NoButton ==> final(self).captured_mouse_buttons@ == old(self).captured_mouse_buttons@.insert(button),
            button == MouseButton::NoButton ==> final(self).captured_mouse_buttons@ == old(self).captured_mouse_buttons@,
            *final(self) == (WndState {
                captured_mouse_buttons: final(self).captured_mouse_buttons,
                ..*old(self)
            }),
    {
        let start = self.captured_mouse_buttons.is_empty();
        self.captured_mouse_buttons.insert(button);
        start
    }

    /// Notes that `button` no longer holds the mouse captured. Returns whether no button does.
    pub fn exit_mouse_capture(&mut self, button: MouseButton) -> (release: bool)
        ensures
            final(self).captured_mouse_buttons@ == old(self).captured_mouse_buttons@.remove(button),
            release == (final(self).captured_mouse_buttons@ == Set::<MouseButton>::empty()),
            *final(self) == (WndState {
                captured_mouse_buttons: final(self).captured_mouse_buttons,
                ..*old(self)
            }),
    {
        self.captured_mouse_buttons.remove(button);
        self.captured_mouse_buttons.is_empty()
    }
}

/// What decides over whether presses make a series of clicks.
#[derive(Clone, Copy, Debug)]
pub struct ClickSettings {
    /// The current time, in nanoseconds.
    pub now: u64,
    /// How soon a click has to follow another, in milliseconds.
    pub double_click_millis: u32,
    /// The size of the box, in pixels, that both have to lie in.
    pub box_width: u32,
    pub box_height: u32,
}

/// What a key message turned out to be.
#[derive(Clone, Copy, Debug)]
pub struct KeyPress {
    pub state: KeyState,
    /// Whether the key is one that focuses a menu: alt or F10.
    pub menu_key: bool,
    /// Whether the text field or the handler took a press.
    pub taken: bool,
}

/// What the system answers to the questions that messages raise. Only the answers that a message
/// needs have to be filled in.
#[derive(Clone, Copy, Debug)]
pub struct Answers {
    /// Whether the handler is running already, higher up on the stack.
    pub busy: bool,
    /// The modifiers that are held.
    pub mods: Modifiers,
    /// The resolution of the window, where the system can tell.
    pub window_dpi: Option<u32>,
    /// The resolution of the nearest monitor, where the system can tell.
    pub monitor_dpi: Option<u32>,
    /// The frame of the window, or the one that the system suggests. All zeros if it could not be
    /// read.
    pub window_rect: PixelRect,
    pub state: WindowState,
    /// Whether the window's handle can be looked at now: it is not being replaced, higher up on the
    /// stack. While the frame is worked out, also whether there is a frame to change.
    pub handle_usable: bool,
    pub padded_border: i32,
    pub size_frame: i32,
    /// What the system's own procedure says of the point.
    pub default_hit: i64,
    pub left_button_down: bool,
    /// The inner area of the window, if it could be had.
    pub client_rect: Option<PixelRect>,
    /// Whether the system agreed to report when the mouse leaves.
    pub tracking: bool,
    /// The point of the message on the window, if it could be worked out.
    pub client_point: Option<PixelPoint>,
    pub click: ClickSettings,
    pub key: Option<KeyPress>,
    /// What accessibility tools are answered.
    pub accessible: Option<i64>,
}

/// Something to ask of the system or of the handler.
#[derive(Clone, Copy, Debug)]
pub enum Effect {
    /// Tell the handler about its window.
    Connect,
    /// Let the system draw a shadow around the window.
    ExtendFrame,
    /// Place the window, with these flags.
    Reframe(u32),
    Place { x: i32, y: i32, width: i32, height: i32, flags: u32 },
    /// Shrink the frame that is worked out, on each side.
    ShrinkFrame(PixelRect),
    GotFocus,
    LostFocus,
    /// Let the handler prepare, then read and validate the area to repaint, and finish with
    /// [`MyWndProc::finish_paint`].
    PreparePaint,
    Resized { width: u16, height: u16 },
    RenderAll { width: u16, height: u16 },
    Command(u32),
    KeyUp,
    TrackLeave,
    MouseWheel(MouseEvent),
    MouseMove(MouseEvent),
    MouseLeave,
    SetCapture,
    MouseDown(MouseEvent),
    MouseUp(MouseEvent),
    /// Defer [`DeferredOp::ReleaseMouseCapture`], behind what the handler has deferred.
    DeferRelease,
    RequestClose,
    DestroyWindow,
    Destroyed,
    KillTimer(u64),
    FreeTimer(TimerToken),
    TimerFired(TimerToken),
    ReportMinSize,
    RunIdle(IdleKind),
}

/// What follows from a message.
#[derive(Debug)]
pub struct Step {
    /// What to answer the system; `None` leaves it to the system's own procedure.
    pub reply: Option<i64>,
    /// What to do, in order.
    pub effects: Vec<Effect>,
    /// Whether the deferred operations are to be run after that.
    pub drain: bool,
}

/// The procedure of one window, with the state behind it.
pub struct MyWndProc {
    pub window: WindowSettings,
    /// Absent until the window is connected to its handler.
    pub state: Option<WndState>,
    /// The areas that have to be repainted.
    pub invalid: Vec<PixelRect>,
    pub deferred_queue: Vec<DeferredOp>,
    pub idle_queue: Vec<IdleKind>,
}

/// The mouse event of a message.
pub open spec fn is_mouse_event(
    event: MouseEvent,
    pos: PixelPoint,
    held: u64,
    mods: Modifiers,
    count: u8,
    button: MouseButton,
    wheel_delta: WheelDelta,
) -> bool {
    &&& event.pos == pos
    &&& event.buttons@ == messages::held_buttons(held)
    &&& event.mods == mods
    &&& event.count == count
    &&& !event.focus
    &&& event.button == button
    &&& event.wheel_delta == wheel_delta
}

fn mouse_event(
    pos: PixelPoint,
    held: u64,
    mods: Modifiers,
    count: u8,
    button: MouseButton,
    wheel_delta: WheelDelta,
) -> (event: MouseEvent)
    ensures
        is_mouse_event(event, pos, held, mods, count, button, wheel_delta),
{
    MouseEvent {
        pos,
        buttons: messages::get_buttons(held),
        mods,
        count,
        focus: false,
        button,
        wheel_delta,
    }
}

/// The movement of the wheel. Shift turns a vertical movement into a horizontal one. What a
/// horizontal wheel reports already has the polarity that is asked for.
pub open spec fn wheel_movement(delta: int, horizontal: bool, shift: bool) -> WheelDelta {
    if horizontal {
        WheelDelta { x: delta as i32, y: 0 }
    } else if shift {
        WheelDelta { x: (-delta) as i32, y: 0 }
    } else {
        WheelDelta { x: 0, y: (-delta) as i32 }
    }
}

impl Answers {
    /// The resolution to create a window with: that of the window, or of the monitor, or the
    /// default.
    pub open spec fn creation_dpi(self) -> u32 {
        match (self.window_dpi, self.monitor_dpi) {
            (Some(dpi), _) => dpi,
            (None, Some(dpi)) => dpi,
            (None, None) => SCALE_TARGET_DPI,
        }
    }

    /// How far the border of a maximized window reaches beyond the screen.
    pub open spec fn frame_inset(self) -> int {
        self.padded_border + self.size_frame
    }

    /// The window's frame without the part beyond the screen.
    pub open spec fn shrunk(self) -> PixelRect {
        let inset = self.frame_inset();
        PixelRect {
            left: (self.window_rect.left + inset) as i32,
            top: (self.window_rect.top + inset) as i32,
            right: (self.window_rect.right - inset) as i32,
            bottom: (self.window_rect.bottom - inset) as i32,
        }
    }

    /// The message's arithmetic stays within the numbers of the system.
    pub open spec fn within_limits(self, message: Message) -> bool {
        let rect = self.window_rect;
        let inset = self.frame_inset();
        match message {
            Message::DpiChanged { .. } => {
                &&& i32::MIN <= rect.right - rect.left <= i32::MAX
                &&& i32::MIN <= rect.bottom - rect.top <= i32::MAX
            },
            Message::NcCalcSize { .. } => {
                &&& i32::MIN <= inset <= i32::MAX
                &&& i32::MIN <= rect.left + inset <= i32::MAX
                &&& i32::MIN <= rect.top + inset <= i32::MAX
                &&& i32::MIN <= rect.right - inset <= i32::MAX
                &&& i32::MIN <= rect.bottom - inset <= i32::MAX
            },
            Message::Wheel { delta, .. } => delta > i32::MIN,
            _ => true,
        }
    }

    /// What a key message comes to: a press that was taken, or a key that would focus the menu of
    /// a window that has none.
    ///
    /// If the window doesn't have a menu, then we need to suppress ALT/F10.
    /// Otherwise we will stop getting mouse events for no gain.
    /// When we do have a menu, those keys will focus the menu.
    pub open spec fn key_handled(self, has_menu: bool) -> bool {
        match self.key {
            None => false,
            Some(press) => {
                ||| !has_menu && press.menu_key
                ||| press.state == KeyState::Down && press.taken
            },
        }
    }
}

/// Whether a key is one that focuses a menu.
pub fn is_menu_key(key: &KbKey) -> (yes: bool)
    ensures
        yes == (key is Alt || key is F10),
{
    matches!(key, KbKey::Alt | KbKey::F10)
}

/// Whether the message needs the window's handler.
pub open spec fn needs_handler(message: Message) -> bool {
    match message {
        Message::SetFocus
        | Message::KillFocus
        | Message::Paint
        | Message::Command { .. }
        | Message::Key
        | Message::Wheel { .. }
        | Message::MouseMove { .. }
        | Message::MouseLeave
        | Message::Close
        | Message::Destroy
        | Message::Timer { .. }
        | Message::CaptureChanged
        | Message::GetMinMaxInfo
        | Message::RunIdle
        | Message::GetObject => true,
        Message::Size { width, height } => width != 0 && height != 0,
        Message::Button { button, .. } => button is Some,
        _ => false,
    }
}

impl MyWndProc {
    /// Whether the handler can be called: the window is connected to one, and it is not running.
    pub open spec fn available(self, answers: Answers) -> bool {
        self.state is Some && !answers.busy
    }

    /// What the system's question which part of the window a point lies on is answered.
    pub open spec fn hit(self, x: int, y: int, answers: Answers) -> i64 {
        let on_border = !self.window.has_titlebar && self.window.is_resizable
            && answers.handle_usable && answers.state != WindowState::Maximized;
        let hit = if on_border && border(answers, x, y) is Some {
            border(answers, x, y)->0
        } else {
            answers.default_hit
        };
        if self.window.handle_titlebar && answers.left_button_down && hit == style::HTCLIENT {
            style::HTCAPTION
        } else {
            hit
        }
    }

    /// What a message is answered.
    pub open spec fn reply_to(self, message: Message, answers: Answers) -> Option<i64> {
        let available = self.available(answers);
        match message {
            Message::NcCalcSize { client } => if client && !self.window.has_titlebar {
                Some(0)
            } else {
                None
            },
            Message::NcHitTest { x, y } => Some(self.hit(x as int, y as int, answers)),
            Message::Size { width, height } => if width == 0 || height == 0 || available {
                Some(0)
            } else {
                None
            },
            Message::Key => if available && answers.key_handled(self.window.has_menu) {
                Some(0)
            } else {
                None
            },
            Message::Wheel { .. } => if available && answers.client_point is None {
                None
            } else {
                Some(0)
            },
            Message::Close | Message::RunIdle => if available {
                Some(0)
            } else {
                None
            },
            Message::GetObject => if available {
                answers.accessible
            } else {
                None
            },
            Message::Timer { .. } => Some(1),
            Message::Other => None,
            _ => Some(0),
        }
    }

    /// The settings after a message.
    pub open spec fn settings_after(self, message: Message, answers: Answers) -> WindowSettings {
        match message {
            Message::Create => WindowSettings {
                dpi_x: answers.creation_dpi(),
                dpi_y: answers.creation_dpi(),
                ..self.window
            },
            Message::DpiChanged { dpi_x, dpi_y } => WindowSettings {
                dpi_x: dpi_x as u32,
                dpi_y: dpi_y as u32,
                ..self.window
            },
            Message::NcHitTest { .. } => WindowSettings {
                handle_titlebar: self.window.handle_titlebar && answers.left_button_down,
                ..self.window
            },
            Message::Size { width, height } => if width != 0 && height != 0 && self.available(
                answers,
            ) {
                WindowSettings { width: width as i32, height: height as i32, ..self.window }
            } else {
                self.window
            },
            _ => self.window,
        }
    }

    /// Whether the mouse has just come onto the window.
    pub open spec fn enters(state: WndState, x: int, y: int, answers: Answers) -> bool {
        !state.has_mouse_focus && answers.client_rect is Some && answers.client_rect->0.has_point(
            x,
            y,
        )
    }

    /// The effects of a message other than of the mouse and of idling.
    pub open spec fn plain_effects(self, message: Message, answers: Answers) -> Seq<Effect> {
        let available = self.available(answers);
        match message {
            Message::Create => if self.state is Some {
                seq![Effect::Connect]
            } else {
                Seq::empty()
            },
            Message::Activate { active } => if !active {
                Seq::empty()
            } else if !self.window.has_titlebar && !self.window.is_transparent {
                seq![Effect::ExtendFrame, Effect::Reframe(style::REFRAME_FLAGS)]
            } else {
                seq![Effect::Reframe(style::REFRAME_FLAGS)]
            },
            Message::DpiChanged { .. } => seq![
                Effect::Place {
                    x: answers.window_rect.left,
                    y: answers.window_rect.top,
                    width: (answers.window_rect.right - answers.window_rect.left) as i32,
                    height: (answers.window_rect.bottom - answers.window_rect.top) as i32,
                    flags: style::RESCALE_FLAGS,
                },
            ],
            Message::NcCalcSize { client } => if client && !self.window.has_titlebar
                && answers.handle_usable && answers.state == WindowState::Maximized {
                seq![Effect::ShrinkFrame(answers.shrunk())]
            } else {
                Seq::empty()
            },
            Message::RequestDestroy => seq![Effect::DestroyWindow],
            Message::Timer { id } => if available {
                seq![
                    Effect::KillTimer(id),
                    Effect::FreeTimer(TimerToken(id)),
                    Effect::TimerFired(TimerToken(id)),
                ]
            } else {
                seq![Effect::KillTimer(id), Effect::FreeTimer(TimerToken(id))]
            },
            _ => if !available {
                Seq::empty()
            } else {
                match message {
                    Message::SetFocus => seq![Effect::GotFocus],
                    Message::KillFocus => seq![Effect::LostFocus],
                    Message::Paint => seq![Effect::PreparePaint],
                    Message::Size { width, height } => if width == 0 || height == 0 {
                        Seq::empty()
                    } else {
                        seq![Effect::Resized { width, height }, Effect::RenderAll { width, height }]
                    },
                    Message::Command { id } => seq![Effect::Command(id as u32)],
                    Message::Key => match answers.key {
                        Some(press) => if press.state == KeyState::Up {
                            seq![Effect::KeyUp]
                        } else {
                            Seq::empty()
                        },
                        None => Seq::empty(),
                    },
                    Message::MouseLeave => seq![Effect::MouseLeave],
                    Message::Close => seq![Effect::RequestClose],
                    Message::Destroy => seq![Effect::Destroyed],
                    Message::GetMinMaxInfo => if self.state->0.has_min_size {
                        seq![Effect::ReportMinSize]
                    } else {
                        Seq::empty()
                    },
                    _ => Seq::empty(),
                }
            },
        }
    }
}

impl MyWndProc {
    /// What a wheel message does: the handler is told, if the point could be worked out.
    pub open spec fn wheel_step(
        self,
        delta: int,
        held: u64,
        horizontal: bool,
        answers: Answers,
        effects: Seq<Effect>,
    ) -> bool {
        let shift = answers.mods.has(Modifiers::SHIFT);
        if self.available(answers) && answers.client_point is Some {
            &&& effects.len() == 1
            &&& effects[0] matches Effect::MouseWheel(event) && is_mouse_event(
                event,
                answers.client_point->0,
                held,
                answers.mods,
                0,
                MouseButton::NoButton,
                wheel_movement(delta, horizontal, shift),
            )
        } else {
            effects.len() == 0
        }
    }

    /// What a movement of the mouse does: the handler is told, and when the mouse has just come
    /// onto the window, the system is asked to report when it leaves. Only if the system agrees
    /// does the window count as being under the mouse.
    pub open spec fn move_step(
        self,
        after: Option<WndState>,
        x: i32,
        y: i32,
        held: u64,
        answers: Answers,
        effects: Seq<Effect>,
    ) -> bool {
        if self.available(answers) {
            let state = self.state->0;
            let enters = Self::enters(state, x as int, y as int, answers);
            let first = if enters {
                seq![Effect::TrackLeave]
            } else {
                Seq::empty()
            };
            &&& effects.len() == first.len() + 1
            &&& effects.drop_last() == first
            &&& effects.last() matches Effect::MouseMove(event) && is_mouse_event(
                event,
                PixelPoint { x, y },
                held,
                answers.mods,
                0,
                MouseButton::NoButton,
                WheelDelta { x: 0, y: 0 },
            )
            &&& after == Some(
                WndState {
                    has_mouse_focus: state.has_mouse_focus || (enters && answers.tracking),
                    ..state
                },
            )
        } else {
            &&& effects.len() == 0
            &&& after == self.state
        }
    }

    /// What a press does: it is counted, the first button captures the mouse, and the handler is
    /// told.
    pub open spec fn press_step(
        state: WndState,
        after: Option<WndState>,
        button: MouseButton,
        x: i32,
        y: i32,
        held: u64,
        answers: Answers,
        effects: Seq<Effect>,
    ) -> bool {
        let count = state.next_count(x as int, y as int, answers.click);
        let first = if state.captured_mouse_buttons@ == Set::<MouseButton>::empty() {
            seq![Effect::SetCapture]
        } else {
            Seq::empty()
        };
        &&& effects.len() == first.len() + 1
        &&& effects.drop_last() == first
        &&& effects.last() matches Effect::MouseDown(event) && is_mouse_event(
            event,
            PixelPoint { x, y },
            held,
            answers.mods,
            count,
            button,
            WheelDelta { x: 0, y: 0 },
        )
        &&& after matches Some(after) && after == (WndState {
            click_count: count,
            last_click_time: answers.click.now,
            last_click_pos: PixelPoint { x, y },
            captured_mouse_buttons: after.captured_mouse_buttons,
            ..state
        }) && after.captured_mouse_buttons@ == state.captured_mouse_buttons@.insert(button)
    }

    /// What a release does: the handler is told, and the last button to be released ends the
    /// capture of the mouse, once everything that the handler has deferred until then is done.
    pub open spec fn release_step(
        state: WndState,
        after: Option<WndState>,
        button: MouseButton,
        x: i32,
        y: i32,
        held: u64,
        answers: Answers,
        effects: Seq<Effect>,
    ) -> bool {
        let last = state.captured_mouse_buttons@.remove(button) == Set::<MouseButton>::empty();
        &&& effects.len() == if last {
            2int
        } else {
            1
        }
        &&& effects[0] matches Effect::MouseUp(event) && is_mouse_event(
            event,
            PixelPoint { x, y },
            held,
            answers.mods,
            0,
            button,
            WheelDelta { x: 0, y: 0 },
        )
        &&& last ==> effects[1] == Effect::DeferRelease
        &&& after matches Some(after) && after == (WndState {
            captured_mouse_buttons: after.captured_mouse_buttons,
            ..state
        }) && after.captured_mouse_buttons@ == state.captured_mouse_buttons@.remove(button)
    }

    /// What follows from a message.
    pub open spec fn follows(
        self,
        after: MyWndProc,
        message: Message,
        answers: Answers,
        effects: Seq<Effect>,
    ) -> bool {
        let available = self.available(answers);
        match message {
            Message::Wheel { delta, held, horizontal, .. } => {
                &&& self.wheel_step(delta as int, held, horizontal, answers, effects)
                &&& after.state == self.state
                &&& after.idle_queue@ == self.idle_queue@
            },
            Message::MouseMove { x, y, held } => {
                &&& self.move_step(after.state, x, y, held, answers, effects)
                &&& after.idle_queue@ == self.idle_queue@
            },
            Message::Button { button, down, x, y, held } => {
                &&& after.idle_queue@ == self.idle_queue@
                &&& if !available || button is None {
                    &&& effects.len() == 0
                    &&& after.state == self.state
                    } else if down {
                    &&& Self::press_step(
                        self.state->0,
                        after.state,
                        button->0,
                        x,
                        y,
                        held,
                        answers,
                        effects,
                    )
                    } else {
                    Self::release_step(
                        self.state->0,
                        after.state,
                        button->0,
                        x,
                        y,
                        held,
                        answers,
                        effects,
                    )
                }
            },
            Message::RunIdle => {
                &&& after.state == self.state
                &&& if available {
                    &&& effects == self.idle_queue@.map_values(|kind: IdleKind| Effect::RunIdle(kind))
                    &&& after.idle_queue@.len() == 0
                } else {
                    &&& effects.len() == 0
                    &&& after.idle_queue@ == self.idle_queue@
                }
            },
            _ => {
                &&& effects == self.plain_effects(message, answers)
                &&& after.idle_queue@ == self.idle_queue@
                &&& match message {
                    Message::MouseLeave => available ==> after.state == Some(
                        WndState { has_mouse_focus: false, ..self.state->0 },
                    ),
                    Message::CaptureChanged => available ==> (after.state matches Some(state)
                        && state.captured_mouse_buttons@ == Set::<MouseButton>::empty() && state
                        == (WndState {
                        captured_mouse_buttons: state.captured_mouse_buttons,
                        ..self.state->0
                    })),
                    _ => after.state == self.state,
                }
                &&& !available ==> after.state == self.state
            },
        }
    }

    /// The procedure of a window that is not connected to a handler yet.
    pub fn new(window: WindowSettings) -> (proc_: MyWndProc)
        ensures
            proc_.window == window,
            proc_.state is None,
            proc_.invalid@.len() == 0,
            proc_.deferred_queue@.len() == 0,
            proc_.idle_queue@.len() == 0,
    {
        MyWndProc {
            window,
            state: None,
            invalid: Vec::new(),
            deferred_queue: Vec::new(),
            idle_queue: Vec::new(),
        }
    }

    /// Connects the window to its handler. Returns the resolution to tell the handler, across and
    /// down.
    pub fn connect(&mut self, state: WndState) -> (dpi: (u32, u32))
        ensures
            dpi == (old(self).window.dpi_x, old(self).window.dpi_y),
            *final(self) == (MyWndProc { state: Some(state), ..*old(self) }),
    {
        self.state = Some(state);
        (self.window.dpi_x, self.window.dpi_y)
    }

    /// Decides what a message leads to.
    #[verifier::spinoff_prover]
    #[verifier::rlimit(60)]
    pub fn window_proc(&mut self, message: Message, answers: &Answers) -> (step: Step)
        requires
            answers.within_limits(message),
            message matches Message::Button { button, .. } ==> button
                != Some(MouseButton::NoButton),
        ensures
            step.reply == old(self).reply_to(message, *answers),
            step.drain == (needs_handler(message) && old(self).available(*answers)),
            final(self).window == old(self).settings_after(message, *answers),
            final(self).invalid@ == old(self).invalid@,
            final(self).deferred_queue@ == old(self).deferred_queue@,
            old(self).follows(*final(self), message, *answers, step.effects@),
    {
        let available = self.state.is_some() && !answers.busy;
        let mut effects: Vec<Effect> = Vec::new();
        let reply: Option<i64>;
        let drain: bool;
        match message {
            Message::Create => {
                let dpi: u32 = match (answers.window_dpi, answers.monitor_dpi) {
                    (Some(dpi), _) => dpi,
                    // Windows 8.1 Support
                    (None, Some(dpi)) => dpi,
                    (None, None) => SCALE_TARGET_DPI,
                };
                self.window.dpi_x = dpi;
                self.window.dpi_y = dpi;
                if self.state.is_some() {
                    effects.push(Effect::Connect);
                }
                reply = Some(0);
                drain = false;
            },
            Message::Activate { active } => {
                if active {
                    if !self.window.has_titlebar && !self.window.is_transparent {
                        // This makes windows paint the drop-shadow around the window
                        // since we give it a "1 pixel frame" that we paint over anyway.
                        effects.push(Effect::ExtendFrame);
                    }
                    effects.push(Effect::Reframe(style::REFRAME_FLAGS));
                }
                reply = Some(0);
                drain = false;
            },
            Message::EraseBackground => {
                reply = Some(0);
                drain = false;
            },
            Message::SetFocus => {
                if available {
                    effects.push(Effect::GotFocus);
                }
                reply = Some(0);
                drain = available;
            },
            Message::KillFocus => {
                if available {
                    effects.push(Effect::LostFocus);
                }
                reply = Some(0);
                drain = available;
            },
            Message::Paint => {
                if available {
                    effects.push(Effect::PreparePaint);
                }
                reply = Some(0);
                drain = available;
            },
            Message::DpiChanged { dpi_x, dpi_y } => {
                self.window.dpi_x = dpi_x as u32;
                self.window.dpi_y = dpi_y as u32;
                let rect: PixelRect = answers.window_rect;
                effects.push(
                    Effect::Place {
                        x: rect.left,
                        y: rect.top,
                        width: rect.right - rect.left,
                        height: rect.bottom - rect.top,
                        flags: style::RESCALE_FLAGS,
                    },
                );
                reply = Some(0);
                drain = false;
            },
            Message::NcCalcSize { client } => {
                if client && !self.window.has_titlebar {
                    if answers.handle_usable && answers.state == WindowState::Maximized {
                        // When maximized, windows still adds offsets for the frame
                        // so we counteract them here.
                        let inset: i32 = answers.padded_border + answers.size_frame;
                        let rect: PixelRect = answers.window_rect;
                        effects.push(
                            Effect::ShrinkFrame(
                                PixelRect {
                                    left: rect.left + inset,
                                    top: rect.top + inset,
                                    right: rect.right - inset,
                                    bottom: rect.bottom - inset,
                                },
                            ),
                        );
                    }
                    reply = Some(0);
                } else {
                    reply = None;
                }
                drain = false;
            },
            Message::NcHitTest { x, y } => {
                reply = Some(self.hit_test(x, y, answers));
                drain = false;
            },
            Message::Size { width, height } => {
                if width == 0 || height == 0 {
                    reply = Some(0);
                    drain = false;
                } else if available {
                    self.window.width = width as i32;
                    self.window.height = height as i32;
                    effects.push(Effect::Resized { width, height });
                    effects.push(Effect::RenderAll { width, height });
                    reply = Some(0);
                    drain = true;
                } else {
                    reply = None;
                    drain = false;
                }
            },
            Message::Command { id } => {
                if available {
                    effects.push(Effect::Command(id as u32));
                }
                reply = Some(0);
                drain = available;
            },
            Message::Key => {
                let mut handled = false;
                if available {
                    if let Some(press) = answers.key {
                        let handle_menu = !self.window.has_menu && press.menu_key;
                        match press.state {
                            KeyState::Down => {
                                handled = press.taken || handle_menu;
                            },
                            KeyState::Up => {
                                effects.push(Effect::KeyUp);
                                handled = handle_menu;
                            },
                        }
                    }
                }
                reply = if handled {
                    Some(0)
                } else {
                    None
                };
                drain = available;
            },
            Message::Wheel { delta, held, x: _, y: _, horizontal } => {
                if available && answers.client_point.is_none() {
                    reply = None;
                } else {
                    reply = Some(0);
                }
                if available {
                    if let Some(pos) = answers.client_point {
                        let wheel_delta = if horizontal {
                            WheelDelta { x: delta, y: 0 }
                        } else if answers.mods.shift() {
                            WheelDelta { x: -delta, y: 0 }
                        } else {
                            WheelDelta { x: 0, y: -delta }
                        };
                        effects.push(
                            Effect::MouseWheel(
                                mouse_event(
                                    pos,
                                    held,
                                    answers.mods,
                                    0,
                                    MouseButton::NoButton,
                                    wheel_delta,
                                ),
                            ),
                        );
                    }
                }
                drain = available;
            },
            Message::MouseMove { x, y, held } => {
                if available {
                    self.mouse_move(x, y, held, answers, &mut effects);
                }
                reply = Some(0);
                drain = available;
            },
            Message::MouseLeave => {
                if available {
                    if let Some(state) = self.state {
                        self.state = Some(WndState { has_mouse_focus: false, ..state });
                    }
                    effects.push(Effect::MouseLeave);
                }
                reply = Some(0);
                drain = available;
            },
            Message::Button { button, down, x, y, held } => {
                match button {
                    Some(button) => {
                        if available {
                            self.mouse_button(button, down, x, y, held, answers, &mut effects);
                        }
                        drain = available;
                    },
                    None => {
                        drain = false;
                    },
                }
                reply = Some(0);
            },
            Message::Close => {
                if available {
                    effects.push(Effect::RequestClose);
                    reply = Some(0);
                } else {
                    reply = None;
                }
                drain = available;
            },
            Message::RequestDestroy => {
                effects.push(Effect::DestroyWindow);
                reply = Some(0);
                drain = false;
            },
            Message::Destroy => {
                if available {
                    effects.push(Effect::Destroyed);
                }
                reply = Some(0);
                drain = available;
            },
            Message::Timer { id } => {
                effects.push(Effect::KillTimer(id));
                effects.push(Effect::FreeTimer(TimerToken(id)));
                if available {
                    effects.push(Effect::TimerFired(TimerToken(id)));
                }
                reply = Some(1);
                drain = available;
            },
            Message::CaptureChanged => {
                if available {
                    if let Some(state) = self.state {
                        let mut state = state;
                        state.captured_mouse_buttons.clear();
                        self.state = Some(state);
                    }
                }
                reply = Some(0);
                drain = available;
            },
            Message::GetMinMaxInfo => {
                if available {
                    if let Some(state) = self.state {
                        if state.has_min_size {
                            effects.push(Effect::ReportMinSize);
                        }
                    }
                }
                reply = Some(0);
                drain = available;
            },
            Message::RunIdle => {
                if available {
                    self.take_idle(&mut effects);
                    reply = Some(0);
                } else {
                    reply = None;
                }
                drain = available;
            },
            Message::GetObject => {
                reply = if available {
                    answers.accessible
                } else {
                    None
                };
                drain = available;
            },
            Message::Other => {
                reply = None;
                drain = false;
            },
        }
        assert(!(message is Wheel) && !(message is MouseMove) && !(message is Button) && !(
        message is RunIdle) ==> effects@ =~= old(self).plain_effects(message, *answers));
        Step { reply, effects, drain }
    }

    /// Which part of the window a point lies on.
    fn hit_test(&mut self, x: i32, y: i32, answers: &Answers) -> (hit: i64)
        ensures
            hit == old(self).hit(x as int, y as int, *answers),
            *final(self) == (MyWndProc {
                window: WindowSettings {
                    handle_titlebar: old(self).window.handle_titlebar && answers.left_button_down,
                    ..old(self).window
                },
                ..*old(self)
            }),
    {
        let mut hit: i64 = answers.default_hit;
        if !self.window.has_titlebar && self.window.is_resizable {
            if answers.handle_usable && answers.state != WindowState::Maximized {
                let size: i64 = answers.size_frame as i64 + answers.padded_border as i64;
                if let Some(part) = style::hit_border(answers.window_rect, x, y, size) {
                    hit = part;
                }
            }
        }
        if self.window.handle_titlebar && !answers.left_button_down {
            self.window.handle_titlebar = false;
        }
        if self.window.handle_titlebar && hit == style::HTCLIENT {
            hit = style::HTCAPTION;
        }
        hit
    }

    /// A movement of the mouse.
    fn mouse_move(
        &mut self,
        x: i32,
        y: i32,
        held: u64,
        answers: &Answers,
        effects: &mut Vec<Effect>,
    )
        requires
            old(self).available(*answers),
            old(effects)@.len() == 0,
        ensures
            old(self).move_step(final(self).state, x, y, held, *answers, final(effects)@),
            *final(self) == (MyWndProc { state: final(self).state, ..*old(self) }),
    {
        if let Some(state) = self.state {
            let mut state = state;
            // When the mouse first enters the window client rect we need to register for the
            // WM_MOUSELEAVE event. Note that WM_MOUSEMOVE is also called even when the
            // window under the cursor changes without moving the mouse, for example when
            // our window is first opened under the mouse cursor.
            if !state.has_mouse_focus {
                if let Some(client) = answers.client_rect {
                    if client.contains(x, y) {
                        effects.push(Effect::TrackLeave);
                        if answers.tracking {
                            state.has_mouse_focus = true;
                        }
                    }
                }
            }
            let ghost first = effects@;
            assert(first =~= if Self::enters(old(self).state->0, x as int, y as int, *answers) {
                seq![Effect::TrackLeave]
            } else {
                Seq::empty()
            });
            effects.push(
                Effect::MouseMove(
                    mouse_event(
                        PixelPoint { x, y },
                        held,
                        answers.mods,
                        0,
                        MouseButton::NoButton,
                        WheelDelta { x: 0, y: 0 },
                    ),
                ),
            );
            assert(effects@.drop_last() =~= first);
            self.state = Some(state);
        }
    }

    /// A press or a release of a mouse button.
    fn mouse_button(
        &mut self,
        button: MouseButton,
        down: bool,
        x: i32,
        y: i32,
        held: u64,
        answers: &Answers,
        effects: &mut Vec<Effect>,
    )
        requires
            old(self).available(*answers),
            old(effects)@.len() == 0,
            button != MouseButton::NoButton,
        ensures
            down ==> Self::press_step(
                old(self).state->0,
                final(self).state,
                button,
                x,
                y,
                held,
                *answers,
                final(effects)@,
            ),
            !down ==> Self::release_step(
                old(self).state->0,
                final(self).state,
                button,
                x,
                y,
                held,
                *answers,
                final(effects)@,
            ),
            *final(self) == (MyWndProc { state: final(self).state, ..*old(self) }),
    {
        if let Some(state) = self.state {
            let mut state = state;
            let pos = PixelPoint { x, y };
            let no_wheel = WheelDelta { x: 0, y: 0 };
            if down {
                let count: u8 = state.count_click(x, y, answers.click);
                if state.enter_mouse_capture(button) {
                    effects.push(Effect::SetCapture);
                }
                let ghost first = effects@;
                assert(first =~= if old(self).state->0.captured_mouse_buttons@ == Set::<
                    MouseButton,
                >::empty() {
                    seq![Effect::SetCapture]
                } else {
                    Seq::empty()
                });
                effects.push(
                    Effect::MouseDown(
                        mouse_event(pos, held, answers.mods, count, button, no_wheel),
                    ),
                );
                assert(effects@.drop_last() =~= first);
            } else {
                effects.push(
                    Effect::MouseUp(mouse_event(pos, held, answers.mods, 0, button, no_wheel)),
                );
                if state.exit_mouse_capture(button) {
                    effects.push(Effect::DeferRelease);
                }
            }
            self.state = Some(state);
        }
    }

    /// Takes everything that waits for an idle moment, oldest first.
    fn take_idle(&mut self, effects: &mut Vec<Effect>)
        requires
            old(effects)@.len() == 0,
        ensures
            final(effects)@ == old(self).idle_queue@.map_values(
                |kind: IdleKind| Effect::RunIdle(kind),
            ),
            final(self).idle_queue@.len() == 0,
            final(self).window == old(self).window,
            final(self).state == old(self).state,
            final(self).invalid@ == old(self).invalid@,
            final(self).deferred_queue@ == old(self).deferred_queue@,
    {
        let mut i: usize = 0;
        while i < self.idle_queue.len()
            invariant
                i <= self.idle_queue.len(),
                *self == *old(self),
                effects@ == self.idle_queue@.take(i as int).map_values(
                    |kind: IdleKind| Effect::RunIdle(kind),
                ),
            decreases self.idle_queue.len() - i,
        {
            effects.push(Effect::RunIdle(self.idle_queue[i]));
            i += 1;
            assert(effects@ =~= self.idle_queue@.take(i as int).map_values(
                |kind: IdleKind| Effect::RunIdle(kind),
            ));
        }
        assert(self.idle_queue@.take(i as int) =~= self.idle_queue@);
        self.idle_queue = Vec::new();
    }
}

/// What a deferred operation comes down to.
pub open spec fn action_for(window: WindowSettings, op: DeferredOp) -> DeferredAction {
    match op {
        DeferredOp::SaveAs(options, token) => DeferredAction::SaveDialog(options, token),
        DeferredOp::Open(options, token) => DeferredAction::OpenDialog(options, token),
        DeferredOp::ContextMenu(menu, pos) => DeferredAction::TrackMenu(menu, pos),
        DeferredOp::ShowTitlebar(titlebar) => DeferredAction::SetStyle {
            resizable: window.is_resizable,
            titlebar,
        },
        DeferredOp::SetPosition(position) => DeferredAction::Move(position, style::MOVE_FLAGS),
        DeferredOp::SetSize(size) => DeferredAction::Resize(size, style::RESIZE_FLAGS),
        DeferredOp::SetResizable(resizable) => DeferredAction::SetStyle {
            resizable,
            titlebar: window.has_titlebar,
        },
        DeferredOp::SetWindowState(state) => DeferredAction::Show(
            if !window.is_focusable {
                style::SW_SHOWNOACTIVATE
            } else {
                match state {
                    WindowState::Maximized => style::SW_MAXIMIZE,
                    WindowState::Minimized => style::SW_MINIMIZE,
                    WindowState::Restored => style::SW_RESTORE,
                }
            },
        ),
        DeferredOp::ReleaseMouseCapture => DeferredAction::ReleaseCapture,
    }
}

/// The settings after a deferred operation.
pub open spec fn settings_for(window: WindowSettings, op: DeferredOp) -> WindowSettings {
    match op {
        DeferredOp::ShowTitlebar(titlebar) => WindowSettings { has_titlebar: titlebar, ..window },
        DeferredOp::SetResizable(resizable) => WindowSettings { is_resizable: resizable, ..window },
        _ => window,
    }
}

/// Adds something to do when idle. Returns whether the window has to be woken up for it: one
/// wake-up runs everything that waits, so only the first to wait needs one.
pub fn add_idle(queue: &mut Vec<IdleKind>, kind: IdleKind) -> (wake: bool)
    ensures
        wake == (old(queue)@.len() == 0),
        final(queue)@ == old(queue)@.push(kind),
{
    let wake = queue.len() == 0;
    queue.push(kind);
    wake
}

impl MyWndProc {
    /// Finishes a paint message, once the handler has prepared. `update` is the area that the
    /// system wants repainted. Returns the areas for the handler to paint, after its resources
    /// were rebuilt; if there are none, the handler is not asked to paint.
    pub fn finish_paint(&mut self, update: PixelRect) -> (areas: Vec<PixelRect>)
        ensures
            areas@ == noted(old(self).invalid@, update),
            final(self).invalid@.len() == 0,
            final(self).window == old(self).window,
            final(self).state == old(self).state,
            final(self).deferred_queue@ == old(self).deferred_queue@,
            final(self).idle_queue@ == old(self).idle_queue@,
    {
        let mut areas: Vec<PixelRect> = Vec::new();
        std::mem::swap(&mut areas, &mut self.invalid);
        if !update.is_flat() {
            areas.push(update);
        }
        areas
    }

    /// Marks an area as having to be repainted. An area without extent needs no painting.
    pub fn invalidate_rect(&mut self, rect: PixelRect)
        ensures
            final(self).invalid@ == noted(old(self).invalid@, rect),
            final(self).window == old(self).window,
            final(self).state == old(self).state,
            final(self).deferred_queue@ == old(self).deferred_queue@,
            final(self).idle_queue@ == old(self).idle_queue@,
    {
        if !rect.is_flat() {
            self.invalid.push(rect);
        }
    }

    /// Queues an operation until the handler has returned.
    pub fn defer(&mut self, op: DeferredOp)
        ensures
            final(self).deferred_queue@ == old(self).deferred_queue@.push(op),
            final(self).window == old(self).window,
            final(self).state == old(self).state,
            final(self).invalid@ == old(self).invalid@,
            final(self).idle_queue@ == old(self).idle_queue@,
    {
        self.deferred_queue.push(op);
    }

    /// Takes the operations that were deferred, oldest first. Operations that are deferred while
    /// these run wait for the next time.
    pub fn handle_deferred_queue(&mut self) -> (ops: Vec<DeferredOp>)
        ensures
            ops@ == old(self).deferred_queue@,
            final(self).deferred_queue@.len() == 0,
            final(self).window == old(self).window,
            final(self).state == old(self).state,
            final(self).invalid@ == old(self).invalid@,
            final(self).idle_queue@ == old(self).idle_queue@,
    {
        let mut ops: Vec<DeferredOp> = Vec::new();
        std::mem::swap(&mut ops, &mut self.deferred_queue);
        ops
    }

    /// Decides what a deferred operation comes down to. Without a window there is nothing to do.
    pub fn handle_deferred(&mut self, op: DeferredOp, has_window: bool) -> (action: DeferredAction)
        ensures
            has_window ==> action == action_for(old(self).window, op),
            has_window ==> final(self).window == settings_for(old(self).window, op),
            !has_window ==> action == DeferredAction::Nothing && final(self).window == old(self).window,
            final(self).state == old(self).state,
            final(self).invalid@ == old(self).invalid@,
            final(self).deferred_queue@ == old(self).deferred_queue@,
            final(self).idle_queue@ == old(self).idle_queue@,
    {
        if !has_window {
            return DeferredAction::Nothing;
        }
        match op {
            DeferredOp::SetSize(size) => DeferredAction::Resize(size, style::RESIZE_FLAGS),
            DeferredOp::SetPosition(position) => DeferredAction::Move(
                position,
                style::MOVE_FLAGS,
            ),
            DeferredOp::ShowTitlebar(titlebar) => {
                self.window.has_titlebar = titlebar;
                DeferredAction::SetStyle { resizable: self.window.is_resizable, titlebar }
            },
            DeferredOp::SetResizable(resizable) => {
                self.window.is_resizable = resizable;
                DeferredAction::SetStyle { resizable, titlebar: self.window.has_titlebar }
            },
            DeferredOp::SetWindowState(state) => DeferredAction::Show(
                style::state_command(self.window.is_focusable, state),
            ),
            DeferredOp::SaveAs(options, token) => DeferredAction::SaveDialog(options, token),
            DeferredOp::Open(options, token) => DeferredAction::OpenDialog(options, token),
            DeferredOp::ContextMenu(menu, pos) => DeferredAction::TrackMenu(menu, pos),
            DeferredOp::ReleaseMouseCapture => DeferredAction::ReleaseCapture,
        }
    }

    /// Moves the window. It is restored first. A window that belongs to another is placed
    /// relative to that: `screen_position` is the position on the screen.
    pub fn set_position(&mut self, level: &WindowLevel, position: DpPoint, screen_position: DpPoint)
        ensures
            final(self).deferred_queue@ == old(self).deferred_queue@.push(
                DeferredOp::SetWindowState(WindowState::Restored),
            ).push(
                DeferredOp::SetPosition(place_for(*level, position, screen_position)),
            ),
            final(self).window == old(self).window,
            final(self).state == old(self).state,
            final(self).invalid@ == old(self).invalid@,
            final(self).idle_queue@ == old(self).idle_queue@,
    {
        self.defer(DeferredOp::SetWindowState(WindowState::Restored));
        match level.parent() {
            Some(_) => self.defer(DeferredOp::SetPosition(screen_position)),
            None => self.defer(DeferredOp::SetPosition(position)),
        }
    }

    /// Asks for a dialog for opening a file. The token names the request.
    pub fn open_file(&mut self, options: FileDialogOptions, tokens: &mut Counter) -> (token:
        FileDialogToken)
        ensures
            token == FileDialogToken(old(tokens)@),
            final(tokens)@ == crate::util::after(old(tokens)@),
            final(self).deferred_queue@ == old(self).deferred_queue@.push(
                DeferredOp::Open(options, token),
            ),
            final(self).window == old(self).window,
            final(self).state == old(self).state,
            final(self).invalid@ == old(self).invalid@,
            final(self).idle_queue@ == old(self).idle_queue@,
    {
        let token = FileDialogToken(tokens.next());
        self.defer(DeferredOp::Open(options, token));
        token
    }

    /// Asks for a dialog for saving a file. The token names the request.
    pub fn save_as(&mut self, options: FileDialogOptions, tokens: &mut Counter) -> (token:
        FileDialogToken)
        ensures
            token == FileDialogToken(old(tokens)@),
            final(tokens)@ == crate::util::after(old(tokens)@),
            final(self).deferred_queue@ == old(self).deferred_queue@.push(
                DeferredOp::SaveAs(options, token),
            ),
            final(self).window == old(self).window,
            final(self).state == old(self).state,
            final(self).invalid@ == old(self).invalid@,
            final(self).idle_queue@ == old(self).idle_queue@,
    {
        let token = FileDialogToken(tokens.next());
        self.defer(DeferredOp::SaveAs(options, token));
        token
    }

    /// A text field is gone. If it was the focused one, none is focused any more.
    pub fn remove_text_field(&mut self, token: TextFieldToken)
        ensures
            final(self).window == (WindowSettings {
                active_text_input: crate::text::focused_without(
                    old(self).window.active_text_input,
                    token,
                ),
                ..old(self).window
            }),
            *final(self) == (MyWndProc { window: final(self).window, ..*old(self) }),
    {
        if let Some(active) = self.window.active_text_input {
            if active == token {
                self.window.active_text_input = None;
            }
        }
    }

    /// Focuses a text field, or none.
    pub fn set_focused_text_field(&mut self, active_field: Option<TextFieldToken>)
        ensures
            *final(self) == (MyWndProc {
                window: WindowSettings { active_text_input: active_field, ..old(self).window },
                ..*old(self)
            }),
    {
        self.window.active_text_input = active_field;
    }

    /// A text field changed. Nothing follows from that here.
    pub fn update_text_field(&mut self, _token: TextFieldToken, _update: Event)
        ensures
            *final(self) == *old(self),
    {
    }

    /// Treats the client area as a title bar, or no longer.
    pub fn handle_titlebar(&mut self, val: bool)
        ensures
            *final(self) == (MyWndProc {
                window: WindowSettings { handle_titlebar: val, ..old(self).window },
                ..*old(self)
            }),
    {
        self.window.handle_titlebar = val;
    }
}

/// A button that is pressed while no other holds the mouse captured, and then released, starts
/// the capture of the mouse with the press and ends it with the release.
pub proof fn law_press_and_release_balance(
    state: WndState,
    pressed: Option<WndState>,
    released: Option<WndState>,
    button: MouseButton,
    at: PixelPoint,
    held: u64,
    answers: Answers,
    down: Seq<Effect>,
    up: Seq<Effect>,
)
    requires
        state.captured_mouse_buttons@ == Set::<MouseButton>::empty(),
        MyWndProc::press_step(state, pressed, button, at.x, at.y, held, answers, down),
        MyWndProc::release_step(
            pressed->0,
            released,
            button,
            at.x,
            at.y,
            held,
            answers,
            up,
        ),
    ensures
        down.len() == 2,
        down[0] == Effect::SetCapture,
        up.len() == 2,
        up[1] == Effect::DeferRelease,
        released->0.captured_mouse_buttons@ == Set::<MouseButton>::empty(),
{
    assert(down.drop_last()[0] == down[0]);
    assert(pressed->0.captured_mouse_buttons@.remove(button) =~= Set::<MouseButton>::empty());
}

/// While another button is held, neither pressing nor releasing a button starts or ends the
/// capture of the mouse.
pub proof fn law_capture_is_held_until_the_last_release(
    state: WndState,
    pressed: Option<WndState>,
    released: Option<WndState>,
    other: MouseButton,
    button: MouseButton,
    at: PixelPoint,
    held: u64,
    answers: Answers,
    down: Seq<Effect>,
    up: Seq<Effect>,
)
    requires
        state.captured_mouse_buttons@.contains(other),
        other != button,
        MyWndProc::press_step(state, pressed, button, at.x, at.y, held, answers, down),
        MyWndProc::release_step(
            pressed->0,
            released,
            button,
            at.x,
            at.y,
            held,
            answers,
            up,
        ),
    ensures
        down.len() == 1,
        up.len() == 1,
        released->0.captured_mouse_buttons@.contains(other),
{
    assert(pressed->0.captured_mouse_buttons@.remove(button).contains(other));
}

/// A press that comes too late, or too far from the one before, counts as a single click; others
/// count up, to at most 255.
pub proof fn law_click_series(state: WndState, x: int, y: int, click: ClickSettings)
    ensures
        1 <= state.next_count(x, y, click),
        !state.continues_series(x, y, click) ==> state.next_count(x, y, click) == 1,
        state.continues_series(x, y, click) && state.click_count < u8::MAX ==> state.next_count(
            x,
            y,
            click,
        ) == state.click_count + 1,
{
}

/// It's very tricky to get smooth dynamics (especially resizing) and
/// good performance on Windows. This setting lets clients experiment
/// with different strategies.
#[derive(Clone, Copy, Debug, PartialEq, Eq, Structural)]
pub enum PresentStrategy {
    /// Corresponds to the swap effect DXGI_SWAP_EFFECT_SEQUENTIAL. It
    /// is compatible with GDI (such as menus), but is not the best in
    /// performance.
    Sequential,
    /// Corresponds to the swap effect DXGI_SWAP_EFFECT_FLIP_SEQUENTIAL.
    /// In testing, it seems to perform well, but isn't compatible with
    /// GDI. Resize can probably be made to work reasonably smoothly with
    /// additional synchronization work, but has some artifacts.
    Flip,
    /// Corresponds to the swap effect DXGI_SWAP_EFFECT_FLIP_SEQUENTIAL
    /// but with a redirection surface for GDI compatibility. Resize is
    /// very laggy and artifacty.
    FlipRedirect,
}

/// Lets the system choose a position or a size.
pub const CW_USEDEFAULT: i32 = -0x8000_0000;

/// Builder abstraction for creating new windows.
#[derive(Debug)]
pub struct WindowBuilder {
    pub title: String,
    pub menu: Option<MenuHandle>,
    pub present_strategy: PresentStrategy,
    pub resizable: bool,
    pub show_titlebar: bool,
    pub size: Option<DpSize>,
    pub transparent: bool,
    pub has_min_size: bool,
    /// On the screen, or for a window that belongs to another, on that.
    pub position: Option<PixelPoint>,
    pub level: Option<WindowLevel>,
    pub state: WindowState,
}

/// How a window is to be created.
#[derive(Clone, Copy, Debug)]
pub struct CreationPlan {
    pub ex_style: u32,
    pub style: u32,
    pub x: i32,
    pub y: i32,
    pub width: i32,
    pub height: i32,
    pub parent: Option<WindowId>,
    pub menu: Option<MenuHandle>,
    pub settings: WindowSettings,
    pub level: WindowLevel,
    /// What the window is resized to as soon as there is one, in the scale that it has then.
    pub resize: Option<PlannedResize>,
}

/// A size for a window that was just created, with placement flags.
#[derive(Clone, Copy, Debug, PartialEq, Eq, Structural)]
pub struct PlannedResize {
    pub size: DpSize,
    pub flags: u32,
}

impl WindowBuilder {
    pub fn new() -> (builder: WindowBuilder)
        ensures
            builder.title@ == Seq::<char>::empty(),
            builder.menu is None,
            builder.present_strategy == PresentStrategy::Sequential,
            builder.resizable,
            builder.show_titlebar,
            builder.size is None,
            !builder.transparent,
            !builder.has_min_size,
            builder.position is None,
            builder.level is None,
            builder.state == WindowState::Restored,
    {
        WindowBuilder {
            title: String::new(),
            menu: None,
            present_strategy: PresentStrategy::Sequential,
            resizable: true,
            show_titlebar: true,
            size: None,
            transparent: false,
            has_min_size: false,
            position: None,
            level: None,
            state: WindowState::Restored,
        }
    }

    /// The builder once it is asked for a window that can be seen through, which the system has to
    /// be able to show.
    pub open spec fn made_transparent(self, transparent: bool, can_compose: bool) -> WindowBuilder {
        if transparent && can_compose {
            WindowBuilder { present_strategy: PresentStrategy::Flip, transparent: true, ..self }
        } else {
            self
        }
    }

    /// A window can be seen through only if that was asked for and the system can show it; asking
    /// for it changes how the window is presented and nothing else.
    pub proof fn law_windows_are_seen_through_where_possible(
        self,
        transparent: bool,
        can_compose: bool,
    )
        ensures
            self.made_transparent(transparent, can_compose).transparent == (self.transparent || (
            transparent && can_compose)),
            self.made_transparent(transparent, can_compose) != self ==> transparent && can_compose
                && self.made_transparent(transparent, can_compose).present_strategy is Flip,
            self.made_transparent(transparent, can_compose).title == self.title,
            self.made_transparent(transparent, can_compose).size == self.size,
            self.made_transparent(transparent, can_compose).resizable == self.resizable,
            self.made_transparent(transparent, can_compose).position == self.position,
    {
    }

    /// Asks for a transparent window. That needs a system which can compose windows, and then a
    /// present strategy that goes with it. Transparency that was asked for stays.
    pub fn set_transparent(self, transparent: bool, can_compose: bool) -> (builder: WindowBuilder)
        ensures
            builder == self.made_transparent(transparent, can_compose),
    {
        let mut builder = self;
        if transparent && can_compose {
            builder.present_strategy = PresentStrategy::Flip;
            builder.transparent = true;
        }
        builder
    }

    /// Sets the title.
    pub fn set_title(&mut self, title: String)
        ensures
            *final(self) == (WindowBuilder { title, ..*old(self) }),
    {
        self.title = title;
    }

    /// Sets the menu.
    pub fn set_menu(&mut self, menu: MenuHandle)
        ensures
            *final(self) == (WindowBuilder { menu: Some(menu), ..*old(self) }),
    {
        self.menu = Some(menu);
    }

    /// Sets the size.
    pub fn set_size(&mut self, size: DpSize)
        ensures
            *final(self) == (WindowBuilder { size: Some(size), ..*old(self) }),
    {
        self.size = Some(size);
    }

    /// Sets whether the window can be resized.
    pub fn resizable(&mut self, resizable: bool)
        ensures
            *final(self) == (WindowBuilder { resizable, ..*old(self) }),
    {
        self.resizable = resizable;
    }

    /// Sets whether the window has a title bar.
    pub fn show_titlebar(&mut self, show_titlebar: bool)
        ensures
            *final(self) == (WindowBuilder { show_titlebar, ..*old(self) }),
    {
        self.show_titlebar = show_titlebar;
    }

    /// Sets where the window goes.
    pub fn set_position(&mut self, position: PixelPoint)
        ensures
            *final(self) == (WindowBuilder { position: Some(position), ..*old(self) }),
    {
        self.position = Some(position);
    }

    /// Sets the level.
    pub fn set_level(&mut self, level: WindowLevel)
        ensures
            *final(self) == (WindowBuilder { level: Some(level), ..*old(self) }),
    {
        self.level = Some(level);
    }

    /// Sets the state that the window starts in.
    pub fn set_window_state(&mut self, state: WindowState)
        ensures
            *final(self) == (WindowBuilder { state, ..*old(self) }),
    {
        self.state = state;
    }

    /// The window that the new one belongs to.
    pub open spec fn owner(self) -> Option<WindowId> {
        match self.level {
            Some(level) => level.owner(),
            None => None,
        }
    }

    /// The style of the window. One that belongs to another is a popup.
    pub open spec fn style_bits(self) -> u32 {
        let base = if self.owner() is Some {
            style::WS_POPUP
        } else {
            style::WS_OVERLAPPEDWINDOW
        };
        let framed = if self.resizable {
            base
        } else {
            base & !style::frame_bits()
        };
        let titled = if self.show_titlebar {
            framed
        } else {
            framed & !style::WS_SYSMENU
        };
        match self.state {
            WindowState::Maximized => titled | style::WS_MAXIMIZE,
            WindowState::Minimized => titled | style::WS_MINIMIZE,
            WindowState::Restored => titled,
        }
    }

    /// The extended style of the window. One that belongs to another is never activated and does
    /// not show on the task bar.
    pub open spec fn ex_style_bits(self) -> u32 {
        let base = if self.owner() is Some {
            style::WS_EX_NOACTIVATE | style::WS_EX_TOOLWINDOW
        } else {
            0
        };
        if self.present_strategy == PresentStrategy::Flip {
            base | style::WS_EX_NOREDIRECTIONBITMAP
        } else {
            base
        }
    }

    /// Where the window is created. `owned_position` is the position on the screen of a window
    /// that belongs to another. Without a position the system chooses.
    pub open spec fn place(self, owned_position: PixelPoint) -> PixelPoint {
        match self.position {
            None => PixelPoint { x: CW_USEDEFAULT, y: CW_USEDEFAULT },
            Some(position) => if self.owner() is Some {
                owned_position
            } else {
                position
            },
        }
    }

    /// How the window is created. `area` is the size in whole pixels at a scale of one.
    pub open spec fn planned(
        self,
        owned_position: PixelPoint,
        area: (i32, i32),
        plan: CreationPlan,
    ) -> bool {
        &&& plan.style == self.style_bits()
        &&& plan.ex_style == self.ex_style_bits()
        &&& plan.x == self.place(owned_position).x
        &&& plan.y == self.place(owned_position).y
        &&& (plan.width, plan.height) == match self.size {
            Some(_) => area,
            None => (CW_USEDEFAULT, CW_USEDEFAULT),
        }
        &&& plan.parent == self.owner()
        &&& plan.menu == self.menu
        &&& plan.level == match self.level {
            Some(level) => level,
            None => WindowLevel::AppWindow,
        }
        &&& plan.settings == (WindowSettings {
            dpi_x: SCALE_TARGET_DPI,
            dpi_y: SCALE_TARGET_DPI,
            width: plan.settings.width,
            height: plan.settings.height,
            has_menu: self.menu is Some,
            has_titlebar: self.show_titlebar,
            is_transparent: self.transparent,
            is_resizable: self.resizable,
            handle_titlebar: false,
            active_text_input: None,
            is_focusable: self.owner() is None,
        })
        &&& (plan.settings.width, plan.settings.height) == match self.size {
            Some(_) => area,
            None => (0i32, 0i32),
        }
        &&& plan.resize == match self.size {
            Some(size) => Some(PlannedResize { size, flags: style::RESIZE_FLAGS }),
            None => None,
        }
    }

    /// Decides how the window is created. `area` is the size in whole pixels at a scale of one; it
    /// counts only for a window that was given a size.
    pub fn build(&self, owned_position: PixelPoint, area: (i32, i32)) -> (plan: CreationPlan)
        ensures
            self.planned(owned_position, area, plan),
    {
        let mut x: i32 = CW_USEDEFAULT;
        let mut y: i32 = CW_USEDEFAULT;
        if let Some(position) = self.position {
            x = position.x;
            y = position.y;
        }
        let mut width: i32 = CW_USEDEFAULT;
        let mut height: i32 = CW_USEDEFAULT;
        let mut area_width: i32 = 0;
        let mut area_height: i32 = 0;
        let mut resize: Option<PlannedResize> = None;
        if let Some(size) = self.size {
            width = area.0;
            height = area.1;
            area_width = area.0;
            area_height = area.1;
            resize = Some(PlannedResize { size, flags: style::RESIZE_FLAGS });
        }
        let mut style_bits: u32 = style::WS_OVERLAPPEDWINDOW;
        let mut ex_style: u32 = 0;
        let mut focusable = true;
        let mut parent: Option<WindowId> = None;
        let level = match self.level {
            Some(level) => level,
            // Default window level
            None => WindowLevel::AppWindow,
        };
        if let Some(owner) = level.parent() {
            parent = Some(owner);
            style_bits = style::WS_POPUP;
            ex_style = style::WS_EX_NOACTIVATE | style::WS_EX_TOOLWINDOW;
            focusable = false;
            if self.position.is_some() {
                x = owned_position.x;
                y = owned_position.y;
            }
        }
        if !self.resizable {
            style_bits = style_bits & !(style::WS_THICKFRAME | style::WS_MAXIMIZEBOX);
        }
        if !self.show_titlebar {
            style_bits = style_bits & !style::WS_SYSMENU;
        }
        if self.present_strategy == PresentStrategy::Flip {
            ex_style = ex_style | style::WS_EX_NOREDIRECTIONBITMAP;
        }
        match self.state {
            WindowState::Maximized => {
                style_bits = style_bits | style::WS_MAXIMIZE;
            },
            WindowState::Minimized => {
                style_bits = style_bits | style::WS_MINIMIZE;
            },
            WindowState::Restored => {},
        }
        CreationPlan {
            ex_style,
            style: style_bits,
            x,
            y,
            width,
            height,
            parent,
            menu: self.menu,
            settings: WindowSettings {
                dpi_x: SCALE_TARGET_DPI,
                dpi_y: SCALE_TARGET_DPI,
                width: area_width,
                height: area_height,
                has_menu: self.menu.is_some(),
                has_titlebar: self.show_titlebar,
                is_transparent: self.transparent,
                is_resizable: self.resizable,
                handle_titlebar: false,
                active_text_input: None,
                is_focusable: focusable,
            },
            level,
            resize,
        }
    }
}

/// The part of the border that a point lies on.
pub open spec fn border(answers: Answers, x: int, y: int) -> Option<i64> {
    style::border_hit(answers.window_rect, x, y, answers.size_frame + answers.padded_border)
}

/// The cursor to show: one of the system, by its number, or one that the application made.
#[derive(Clone, Copy, Debug, PartialEq, Eq, Structural)]
pub enum CursorChoice {
    System(u16),
    Custom(u64),
}

pub const IDC_ARROW: u16 = 32512;

pub const IDC_IBEAM: u16 = 32513;

pub const IDC_CROSS: u16 = 32515;

pub const IDC_SIZEWE: u16 = 32644;

pub const IDC_SIZENS: u16 = 32645;

pub const IDC_NO: u16 = 32648;

pub const IDC_HAND: u16 = 32649;

/// The cursor to show.
pub open spec fn cursor_for(cursor: Cursor) -> CursorChoice {
    match cursor {
        Cursor::Arrow => CursorChoice::System(IDC_ARROW),
        Cursor::IBeam => CursorChoice::System(IDC_IBEAM),
        Cursor::Pointer => CursorChoice::System(IDC_HAND),
        Cursor::Crosshair => CursorChoice::System(IDC_CROSS),
        Cursor::OpenHand => CursorChoice::System(IDC_ARROW),
        Cursor::NotAllowed => CursorChoice::System(IDC_NO),
        Cursor::ResizeLeftRight => CursorChoice::System(IDC_SIZEWE),
        Cursor::ResizeUpDown => CursorChoice::System(IDC_SIZENS),
        Cursor::Custom(cursor) => CursorChoice::Custom(cursor),
    }
}

/// The cursor to show. The system has no open hand, so that is an arrow.
pub fn get_hcursor(cursor: &Cursor) -> (choice: CursorChoice)
    ensures
        choice == cursor_for(*cursor),
{
    match cursor {
        Cursor::Arrow => CursorChoice::System(IDC_ARROW),
        Cursor::IBeam => CursorChoice::System(IDC_IBEAM),
        Cursor::Pointer => CursorChoice::System(IDC_HAND),
        Cursor::Crosshair => CursorChoice::System(IDC_CROSS),
        Cursor::OpenHand => CursorChoice::System(IDC_ARROW),
        Cursor::NotAllowed => CursorChoice::System(IDC_NO),
        Cursor::ResizeLeftRight => CursorChoice::System(IDC_SIZEWE),
        Cursor::ResizeUpDown => CursorChoice::System(IDC_SIZENS),
        Cursor::Custom(cursor) => CursorChoice::Custom(*cursor),
    }
}

/// The last message of a window.
pub const WM_NCDESTROY: u32 = 0x0082;

/// What is done with a message before the window sees it, and after.
#[derive(Clone, Copy, Debug, PartialEq, Eq, Structural)]
pub struct Dispatch {
    /// Store the window that comes with the message.
    pub store: bool,
    /// Ask the window. A message that it leaves alone goes to the system, as one does that has no
    /// window.
    pub ask: bool,
    /// Clean up after the window, and forget it.
    pub forget: bool,
}

/// What is done with a message.
pub open spec fn dispatch_for(msg: u32, known: bool) -> Dispatch {
    Dispatch {
        store: msg == messages::WM_CREATE,
        ask: known || msg == messages::WM_CREATE,
        forget: msg == WM_NCDESTROY && known,
    }
}

/// What is done with a message. `known` says whether a window is stored for it. The message that
/// creates a window brings it along; the last message of a window is the one that destroys it.
pub fn win_proc_dispatch(msg: u32, known: bool) -> (dispatch: Dispatch)
    ensures
        dispatch == dispatch_for(msg, known),
{
    let store = msg == messages::WM_CREATE;
    let known = known || store;
    Dispatch { store, ask: known, forget: msg == WM_NCDESTROY && known }
}

/// How far the content of a window is from its edges, in pixels.
#[derive(Clone, Copy, Debug, PartialEq, Eq, Structural)]
pub struct PixelInsets {
    pub left: i64,
    pub top: i64,
    pub right: i64,
    pub bottom: i64,
}

/// The smaller of two numbers.
pub open spec fn smaller(a: i32, b: i32) -> i32 {
    if a <= b {
        a
    } else {
        b
    }
}

/// The larger of two numbers.
pub open spec fn larger(a: i32, b: i32) -> i32 {
    if a <= b {
        b
    } else {
        a
    }
}

/// The rectangle with the same corners that is not turned over.
pub open spec fn upright(rect: PixelRect) -> PixelRect {
    PixelRect {
        left: smaller(rect.left, rect.right),
        top: smaller(rect.top, rect.bottom),
        right: larger(rect.left, rect.right),
        bottom: larger(rect.top, rect.bottom),
    }
}

fn from_points(rect: PixelRect) -> (ordered: PixelRect)
    ensures
        ordered == upright(rect),
{
    let (left, right) = if rect.left <= rect.right {
        (rect.left, rect.right)
    } else {
        (rect.right, rect.left)
    };
    let (top, bottom) = if rect.top <= rect.bottom {
        (rect.top, rect.bottom)
    } else {
        (rect.bottom, rect.top)
    };
    PixelRect { left, top, right, bottom }
}

/// How far the content of a window is from its edges.
pub open spec fn are_insets(insets: PixelInsets, window: PixelRect, content: PixelRect) -> bool {
    &&& insets.left == upright(content).left - upright(window).left
    &&& insets.top == upright(content).top - upright(window).top
    &&& insets.right == upright(window).right - upright(content).right
    &&& insets.bottom == upright(window).bottom - upright(content).bottom
}

/// How far the content of a window is from its edges. The corners of both rectangles may come in
/// any order.
pub fn content_insets(window: PixelRect, content: PixelRect) -> (insets: PixelInsets)
    ensures
        are_insets(insets, window, content),
{
    let window = from_points(window);
    let content = from_points(content);
    PixelInsets {
        left: content.left as i64 - window.left as i64,
        top: content.top as i64 - window.top as i64,
        right: window.right as i64 - content.right as i64,
        bottom: window.bottom as i64 - content.bottom as i64,
    }
}

/// Clicks make a series if the second one comes within the time and lies within the box, the first
/// one in its middle; it does not matter on which side of the first the second one lies.
pub proof fn law_series_are_close_in_time_and_place(
    state: WndState,
    x: int,
    y: int,
    click: ClickSettings,
)
    requires
        click.now >= state.last_click_time,
    ensures
        ({
            let series = state.next_count(x, y, click) > 1;
            let later = click.now - state.last_click_time;
            let right = x - state.last_click_pos.x;
            let down = y - state.last_click_pos.y;
            &&& state.click_count > 0 ==> (series <==> {
                &&& later < click.double_click_millis * 1_000_000
                &&& -click.box_width <= 2 * right <= click.box_width
                &&& -click.box_height <= 2 * down <= click.box_height
            })
            // The mirrored click counts the same.
            &&& state.next_count(x, y, click) == state.next_count(
                state.last_click_pos.x - right,
                state.last_click_pos.y - down,
                click,
            )
            &&& state.next_count(x, y, click) <= state.click_count + 1
            &&& series && state.click_count < 255 ==> state.next_count(x, y, click)
                == state.click_count + 1
        }),
{
}

/// Whether an effect calls the handler.
pub open spec fn calls_handler(effect: Effect) -> bool {
    match effect {
        Effect::GotFocus
        | Effect::LostFocus
        | Effect::PreparePaint
        | Effect::Resized { .. }
        | Effect::RenderAll { .. }
        | Effect::Command(_)
        | Effect::KeyUp
        | Effect::MouseWheel(_)
        | Effect::MouseMove(_)
        | Effect::MouseLeave
        | Effect::MouseDown(_)
        | Effect::MouseUp(_)
        | Effect::RequestClose
        | Effect::Destroyed
        | Effect::TimerFired(_)
        | Effect::ReportMinSize
        | Effect::RunIdle(_) => true,
        _ => false,
    }
}

/// The handler is never called while it is running already, nor before the window is connected to
/// it, whatever the message; nothing that waits for it is lost then.
pub proof fn law_busy_handlers_are_not_called(
    before: MyWndProc,
    after: MyWndProc,
    message: Message,
    answers: Answers,
    effects: Seq<Effect>,
)
    requires
        before.follows(after, message, answers, effects),
        answers.busy || before.state is None,
    ensures
        forall|i: int| 0 <= i < effects.len() ==> !calls_handler(#[trigger] effects[i]),
        after.state == before.state,
        after.idle_queue@ == before.idle_queue@,
{
}

/// A handler that can be called is told what a message is about, and told once: which of its
/// methods is called depends on the message alone.
pub proof fn law_handlers_are_told(
    before: MyWndProc,
    after: MyWndProc,
    message: Message,
    answers: Answers,
    effects: Seq<Effect>,
)
    requires
        before.follows(after, message, answers, effects),
        before.state is Some,
        !answers.busy,
    ensures
        message is SetFocus ==> effects == seq![Effect::GotFocus],
        message is KillFocus ==> effects == seq![Effect::LostFocus],
        message is Paint ==> effects == seq![Effect::PreparePaint],
        message is MouseLeave ==> effects == seq![Effect::MouseLeave] && !(
        after.state->0.has_mouse_focus),
        message is Close ==> effects == seq![Effect::RequestClose],
        message is Destroy ==> effects == seq![Effect::Destroyed],
        message matches Message::Command { id } ==> effects == seq![Effect::Command(id as u32)],
        message is GetMinMaxInfo ==> effects.len() == (if before.state->0.has_min_size {
            1int
        } else {
            0
        }),
        message is CaptureChanged ==> effects.len() == 0
            && after.state->0.captured_mouse_buttons@.len() == 0,
        message is Key && (answers.key matches Some(press) && press.state == KeyState::Up)
            ==> effects == seq![Effect::KeyUp],
        message is Key && (answers.key matches Some(press) && press.state == KeyState::Down)
            ==> effects.len() == 0,
        message is RunIdle ==> after.idle_queue@.len() == 0 && effects.len()
            == before.idle_queue@.len() && forall|i: int|
            0 <= i < effects.len() ==> #[trigger] effects[i] == Effect::RunIdle(
                before.idle_queue@[i],
            ),
{
}

/// A window is resized to what the system says, and painted at once after the handler knows of it.
/// A window without extent, which is a minimized one, is left as it is.
pub proof fn law_sizes_reach_the_handler_before_painting(
    before: MyWndProc,
    after: MyWndProc,
    width: u16,
    height: u16,
    answers: Answers,
    effects: Seq<Effect>,
)
    requires
        before.follows(after, Message::Size { width, height }, answers, effects),
        before.state is Some,
        !answers.busy,
    ensures
        ({
            let settings = before.settings_after(Message::Size { width, height }, answers);
            &&& width * height != 0 ==> {
                &&& effects.len() == 2
                &&& effects[0] matches Effect::Resized { width: w, height: h } && w == width && h
                    == height
                &&& effects[1] matches Effect::RenderAll { width: w, height: h } && w == width && h
                    == height
                &&& settings.width == width && settings.height == height
            }
            &&& width * height == 0 ==> effects.len() == 0 && settings == before.window
        }),
{
    assert(width * height == 0 <==> width == 0 || height == 0) by (nonlinear_arith);
}

/// Messages change the settings of a window only where they are about them: the resolution when the
/// window is created or the resolution changes, the size when the size changes, and the title bar
/// when a point is tested.
pub proof fn law_messages_change_only_their_settings(
    before: MyWndProc,
    message: Message,
    answers: Answers,
)
    ensures
        ({
            let after = before.settings_after(message, answers);
            &&& after.has_menu == before.window.has_menu && after.has_titlebar
                == before.window.has_titlebar && after.is_transparent
                == before.window.is_transparent && after.is_resizable == before.window.is_resizable
                && after.active_text_input == before.window.active_text_input && after.is_focusable
                == before.window.is_focusable
            &&& !(message is Create) && !(message is DpiChanged) ==> after.dpi_x
                == before.window.dpi_x && after.dpi_y == before.window.dpi_y
            &&& message matches Message::DpiChanged { dpi_x, dpi_y } ==> after.dpi_x == dpi_x
                && after.dpi_y == dpi_y
            &&& message is Create ==> after.dpi_x == after.dpi_y && (answers.window_dpi matches Some(
                dpi,
            ) ==> after.dpi_x == dpi) && (answers.window_dpi is None
                && answers.monitor_dpi is Some ==> Some(after.dpi_x) == answers.monitor_dpi) && (
            answers.window_dpi is None && answers.monitor_dpi is None ==> after.dpi_x == 96)
            &&& !(message is Size) ==> after.width == before.window.width && after.height
                == before.window.height
            &&& after.handle_titlebar ==> before.window.handle_titlebar
            &&& after.handle_titlebar != before.window.handle_titlebar ==> message is NcHitTest
                && !answers.left_button_down
        }),
{
}

/// A timer is stopped and its number given back before the handler is told that it went off; it is
/// told of the number that it got when it asked for the timer.
pub proof fn law_timers_are_stopped_first(
    before: MyWndProc,
    after: MyWndProc,
    id: u64,
    answers: Answers,
    effects: Seq<Effect>,
)
    requires
        before.follows(after, Message::Timer { id }, answers, effects),
    ensures
        effects.len() == (if before.state is Some && !answers.busy {
            3int
        } else {
            2
        }),
        effects[0] == Effect::KillTimer(id),
        effects[1] == Effect::FreeTimer(TimerToken(id)),
        effects.len() == 3 ==> effects[2] == Effect::TimerFired(TimerToken(id)),
        before.reply_to(Message::Timer { id }, answers) == Some(1i64),
{
}

/// A change of resolution places the window where the system suggests: the corners of the new frame
/// are those of the suggestion.
pub proof fn law_rescaled_windows_fill_the_suggestion(
    before: MyWndProc,
    after: MyWndProc,
    dpi_x: u16,
    dpi_y: u16,
    answers: Answers,
    effects: Seq<Effect>,
)
    requires
        before.follows(after, Message::DpiChanged { dpi_x, dpi_y }, answers, effects),
        answers.within_limits(Message::DpiChanged { dpi_x, dpi_y }),
    ensures
        effects.len() == 1,
        effects[0] matches Effect::Place { x, y, width, height, flags } && {
            &&& x == answers.window_rect.left && y == answers.window_rect.top
            &&& x + width == answers.window_rect.right && y + height == answers.window_rect.bottom
            &&& flags == style::RESCALE_FLAGS
        },
{
}

/// The frame of a maximized window without a title bar is made smaller by as much on each side, so
/// that none of it lies beyond the screen. Other windows keep their frame.
pub proof fn law_maximized_frames_shrink_evenly(
    before: MyWndProc,
    after: MyWndProc,
    client: bool,
    answers: Answers,
    effects: Seq<Effect>,
)
    requires
        before.follows(after, Message::NcCalcSize { client }, answers, effects),
        answers.within_limits(Message::NcCalcSize { client }),
    ensures
        effects.len() > 0 <==> client && !before.window.has_titlebar && answers.handle_usable
            && answers.state == WindowState::Maximized,
        effects.len() > 0 ==> effects.len() == 1 && (effects[0] matches Effect::ShrinkFrame(rect)
            && {
            let frame = answers.window_rect;
            let inset = answers.padded_border + answers.size_frame;
            &&& rect.left - frame.left == inset && frame.right - rect.right == inset
            &&& rect.top - frame.top == inset && frame.bottom - rect.bottom == inset
        }),
        before.reply_to(Message::NcCalcSize { client }, answers) is Some <==> client
            && !before.window.has_titlebar,
{
}

/// Activating a window reframes it, and lets the system draw a shadow only around one that has
/// neither a title bar nor transparency; deactivating it does nothing.
pub proof fn law_activation_reframes(
    before: MyWndProc,
    after: MyWndProc,
    active: bool,
    answers: Answers,
    effects: Seq<Effect>,
)
    requires
        before.follows(after, Message::Activate { active }, answers, effects),
    ensures
        !active ==> effects.len() == 0,
        active ==> effects.len() >= 1 && effects.last() == Effect::Reframe(style::REFRAME_FLAGS),
        active ==> (effects.len() == 2 <==> !before.window.has_titlebar
            && !before.window.is_transparent),
        effects.len() == 2 ==> effects[0] == Effect::ExtendFrame,
        effects.len() <= 2,
{
}

/// A point of a window that has a title bar, or cannot be resized, is never on a border of ours: the
/// system says where it lies. Only while the mouse is held over what is treated as a title bar is
/// the inside of the window a caption.
pub proof fn law_hits_on_borders_need_a_borderless_window(
    proc_: MyWndProc,
    x: int,
    y: int,
    answers: Answers,
)
    ensures
        ({
            let hit = proc_.hit(x, y, answers);
            let ours = !proc_.window.has_titlebar && proc_.window.is_resizable
                && answers.handle_usable && answers.state != WindowState::Maximized;
            let edge = style::border_hit(
                answers.window_rect,
                x,
                y,
                answers.size_frame + answers.padded_border,
            );
            let drags = proc_.window.handle_titlebar && answers.left_button_down;
            &&& !ours && !drags ==> hit == answers.default_hit
            &&& ours && edge is Some && !drags ==> Some(hit) == edge
            &&& ours && edge is None && !drags ==> hit == answers.default_hit
            &&& drags ==> hit != 1
            &&& drags && !(ours && edge is Some) ==> hit == (if answers.default_hit == 1 {
                2
            } else {
                answers.default_hit
            })
        }),
{
}

/// Which messages are left to the system: what is not handled at all, keys that nobody took, a
/// wheel that moved over no known point, the question of accessibility tools, and whatever needs a
/// handler that cannot be called to make sense.
pub proof fn law_messages_are_answered(before: MyWndProc, message: Message, answers: Answers)
    ensures
        ({
            let reply = before.reply_to(message, answers);
            let callable = before.state is Some && !answers.busy;
            &&& message is Other ==> reply is None
            &&& message matches Message::Size { width, height } ==> (reply is None <==> width > 0
                && height > 0 && !callable) && (reply is Some ==> reply == Some(0i64))
            &&& message is Timer ==> reply == Some(1i64)
            &&& message is NcHitTest ==> reply is Some
            &&& message matches Message::NcCalcSize { client } ==> (reply is None <==> !client
                || before.window.has_titlebar) && (reply is Some ==> reply == Some(0i64))
            &&& message is Wheel && reply is Some ==> reply == Some(0i64)
            &&& message is Key && reply is Some ==> reply == Some(0i64)
            &&& message is Create || message is Activate || message is EraseBackground
                || message is SetFocus || message is KillFocus || message is Paint
                || message is DpiChanged || message is Command || message is MouseMove
                || message is MouseLeave || message is Button || message is RequestDestroy
                || message is Destroy || message is CaptureChanged || message is GetMinMaxInfo
                ==> reply == Some(0i64)
            &&& message is Close || message is RunIdle ==> (reply == Some(0i64) <==> callable) && (
            reply is None <==> !callable)
            &&& message is Wheel ==> (reply is None <==> callable && answers.client_point is None)
            &&& message is Key && !callable ==> reply is None
            &&& message is GetObject ==> reply == (if callable {
                answers.accessible
            } else {
                None
            })
        }),
{
}

/// A key that was taken is not left to the system, and a key that focuses a menu is left to it only
/// if there is a menu; every other key is left to it. Releases are never taken.
pub proof fn law_keys_are_left_to_the_system(answers: Answers, has_menu: bool)
    ensures
        answers.key is None ==> !answers.key_handled(has_menu),
        answers.key matches Some(press) ==> {
            let handled = answers.key_handled(has_menu);
            &&& press.menu_key && !has_menu ==> handled
            &&& press.state == KeyState::Down && press.taken ==> handled
            &&& handled && has_menu ==> press.state == KeyState::Down && press.taken
            &&& handled && press.state == KeyState::Up ==> press.menu_key
            &&& handled && !press.menu_key ==> press.taken
        },
{
}

/// The handler is told of the mouse as the message has it: where it is, what is held, and which
/// modifiers. A move has no button and counts no click, a press has its button and its number in
/// the series, and a release has its button and counts none.
pub proof fn law_mouse_events_tell_the_message(
    before: MyWndProc,
    after: MyWndProc,
    message: Message,
    answers: Answers,
    effects: Seq<Effect>,
)
    requires
        before.follows(after, message, answers, effects),
        before.state is Some,
        !answers.busy,
    ensures
        message matches Message::MouseMove { x, y, held } ==> effects.len() > 0 && (effects.last()
            matches Effect::MouseMove(event) && {
            &&& event.pos == (PixelPoint { x, y }) && event.mods == answers.mods
            &&& event.buttons@ == messages::held_buttons(held)
            &&& event.count == 0 && event.button == MouseButton::NoButton
            &&& event.wheel_delta == (WheelDelta { x: 0, y: 0 }) && !event.focus
        }),
        message matches Message::Button { button: Some(button), down: true, x, y, held }
            ==> effects.len() > 0 && (effects.last() matches Effect::MouseDown(event) && {
            &&& event.pos == (PixelPoint { x, y }) && event.mods == answers.mods
            &&& event.buttons@ == messages::held_buttons(held)
            &&& event.count >= 1 && event.count == after.state->0.click_count
            &&& event.button == button && !event.focus
            &&& after.state->0.last_click_pos == event.pos
            &&& after.state->0.last_click_time == answers.click.now
            &&& after.state->0.captured_mouse_buttons@.contains(button)
            &&& event.wheel_delta == (WheelDelta { x: 0, y: 0 })
        }),
        message matches Message::Button { button: Some(button), down: false, x, y, held }
            ==> effects.len() > 0 && (effects[0] matches Effect::MouseUp(event) && {
            &&& event.pos == (PixelPoint { x, y }) && event.mods == answers.mods
            &&& event.buttons@ == messages::held_buttons(held)
            &&& event.count == 0 && event.button == button && !event.focus
            &&& after.state->0.click_count == before.state->0.click_count
            &&& !after.state->0.captured_mouse_buttons@.contains(button)
            &&& event.wheel_delta == (WheelDelta { x: 0, y: 0 })
        }),
        message matches Message::Button { button: None, .. } ==> effects.len() == 0 && after.state
            == before.state,
{
}

/// The wheel scrolls against the way that it is turned: away from the user is up, to the left with
/// shift; a wheel to the side scrolls the way that it is turned. It scrolls by as much as it is
/// turned, along one axis only, at the point that it was turned over.
pub proof fn law_wheels_scroll_one_way(
    before: MyWndProc,
    after: MyWndProc,
    message: Message,
    answers: Answers,
    effects: Seq<Effect>,
)
    requires
        before.follows(after, message, answers, effects),
        answers.within_limits(message),
        before.state is Some,
        !answers.busy,
        answers.client_point is Some,
    ensures
        message matches Message::Wheel { delta, held, x, y, horizontal } ==> effects.len() == 1 && (
        effects[0] matches Effect::MouseWheel(event) && {
            let shift = answers.mods.has(Modifiers::SHIFT);
            let scrolled = event.wheel_delta;
            &&& scrolled.x == 0 || scrolled.y == 0
            &&& horizontal ==> scrolled.x == delta
            &&& !horizontal ==> scrolled.x + scrolled.y + delta == 0
            &&& !horizontal && delta != 0 ==> (scrolled.x != 0 <==> shift)
            &&& Some(event.pos) == answers.client_point && event.mods == answers.mods
            &&& event.buttons@ == messages::held_buttons(held)
            &&& event.count == 0 && event.button == MouseButton::NoButton
        }),
{
}

/// The mouse counts as being over the window only if it came onto it and the system reports when it
/// leaves; that is asked for once, when it comes.
pub proof fn law_leaving_is_asked_for_once(
    before: MyWndProc,
    after: MyWndProc,
    x: i32,
    y: i32,
    held: u64,
    answers: Answers,
    effects: Seq<Effect>,
)
    requires
        before.follows(after, Message::MouseMove { x, y, held }, answers, effects),
        before.state is Some,
        !answers.busy,
    ensures
        before.state->0.has_mouse_focus ==> effects.len() == 1 && after.state == before.state,
        !before.state->0.has_mouse_focus ==> {
            let inside = answers.client_rect matches Some(rect) && rect.left <= x < rect.right
                && rect.top <= y < rect.bottom;
            &&& effects.len() == 2 <==> inside
            &&& inside ==> effects[0] == Effect::TrackLeave
            &&& after.state->0.has_mouse_focus <==> inside && answers.tracking
        },
{
    if effects.len() == 2 {
        assert(effects.drop_last()[0] == effects[0]);
    }
}

/// An operation that changes the frame changes one setting and keeps the other one, and the style
/// is worked out from both as they then are. No other operation changes the settings.
pub proof fn law_style_follows_the_settings(window: WindowSettings, op: DeferredOp)
    ensures
        ({
            let after = settings_for(window, op);
            &&& action_for(window, op) matches DeferredAction::SetStyle { resizable, titlebar }
                ==> resizable == after.is_resizable && titlebar == after.has_titlebar
            &&& op matches DeferredOp::ShowTitlebar(shown) ==> after.has_titlebar == shown
                && after.is_resizable == window.is_resizable
            &&& op matches DeferredOp::SetResizable(resizable) ==> after.is_resizable == resizable
                && after.has_titlebar == window.has_titlebar
            &&& action_for(window, op) is SetStyle <==> op is ShowTitlebar || op is SetResizable
            &&& !(action_for(window, op) is SetStyle) ==> after == window
        }),
{
}

/// A deferred operation is done as it was asked for: a dialog with its options and its token, a menu
/// at its point, a move to its position and a resize to its size.
pub proof fn law_deferred_operations_are_done(window: WindowSettings, op: DeferredOp)
    ensures
        match (op, action_for(window, op)) {
            (
                DeferredOp::SaveAs(options, token),
                DeferredAction::SaveDialog(shown, answered),
            ) => options == shown && token == answered,
            (
                DeferredOp::Open(options, token),
                DeferredAction::OpenDialog(shown, answered),
            ) => options == shown && token == answered,
            (
                DeferredOp::ContextMenu(menu, pos),
                DeferredAction::TrackMenu(shown, at),
            ) => menu == shown && pos == at,
            (DeferredOp::SetPosition(position), DeferredAction::Move(to, flags)) => position == to
                && flags == 0x0215,
            (DeferredOp::SetSize(size), DeferredAction::Resize(to, flags)) => size == to && flags
                == 0x0216,
            (DeferredOp::SetWindowState(state), DeferredAction::Show(command)) => command
                == style::command_for(window.is_focusable, state),
            (DeferredOp::ShowTitlebar(_), DeferredAction::SetStyle { .. }) => true,
            (DeferredOp::SetResizable(_), DeferredAction::SetStyle { .. }) => true,
            (DeferredOp::ReleaseMouseCapture, DeferredAction::ReleaseCapture) => true,
            _ => false,
        },
{
}

/// The style of a new window says what was asked for, one bit for each: a window of its own has a
/// caption and is an overlapped window, one that belongs to another is a popup without any.
pub proof fn law_styles_say_what_was_asked_for(builder: WindowBuilder)
    ensures
        ({
            let bits = builder.style_bits();
            let owned = builder.owner() is Some;
            &&& bits & 0x8000_0000 != 0 <==> owned
            &&& bits & 0x00c0_0000 == 0x00c0_0000 <==> !owned
            &&& bits & 0x0004_0000 != 0 <==> !owned && builder.resizable
            &&& bits & 0x0001_0000 != 0 <==> !owned && builder.resizable
            &&& bits & 0x0008_0000 != 0 <==> !owned && builder.show_titlebar
            &&& bits & 0x0002_0000 != 0 <==> !owned
            &&& bits & 0x0100_0000 != 0 <==> builder.state == WindowState::Maximized
            &&& bits & 0x2000_0000 != 0 <==> builder.state == WindowState::Minimized
            &&& builder.ex_style_bits() & 0x0800_0000 != 0 <==> owned
            &&& builder.ex_style_bits() & 0x0000_0080 != 0 <==> owned
            &&& builder.ex_style_bits() & 0x0020_0000 != 0 <==> builder.present_strategy
                == PresentStrategy::Flip
        }),
{
    let owned = builder.owner() is Some;
    let resizable = builder.resizable;
    let titlebar = builder.show_titlebar;
    let maximized = builder.state == WindowState::Maximized;
    let minimized = builder.state == WindowState::Minimized;
    let flip = builder.present_strategy == PresentStrategy::Flip;
    assert({
        let base = if owned {
            0x8000_0000u32
        } else {
            0x00cf_0000u32
        };
        let framed = if resizable {
            base
        } else {
            base & !(0x0004_0000u32 | 0x0001_0000u32)
        };
        let titled = if titlebar {
            framed
        } else {
            framed & !0x0008_0000u32
        };
        let bits = if maximized {
            titled | 0x0100_0000u32
        } else if minimized {
            titled | 0x2000_0000u32
        } else {
            titled
        };
        let ex_base = if owned {
            0x0800_0000u32 | 0x0000_0080u32
        } else {
            0u32
        };
        let ex_bits = if flip {
            ex_base | 0x0020_0000u32
        } else {
            ex_base
        };
        &&& (bits & 0x8000_0000 != 0 <==> owned)
        &&& (bits & 0x00c0_0000 == 0x00c0_0000 <==> !owned)
        &&& (bits & 0x0004_0000 != 0 <==> !owned && resizable)
        &&& (bits & 0x0001_0000 != 0 <==> !owned && resizable)
        &&& (bits & 0x0008_0000 != 0 <==> !owned && titlebar)
        &&& (bits & 0x0002_0000 != 0 <==> !owned)
        &&& (bits & 0x0100_0000 != 0 <==> maximized)
        &&& (bits & 0x2000_0000 != 0 <==> minimized)
        &&& (ex_bits & 0x0800_0000 != 0 <==> owned)
        &&& (ex_bits & 0x0000_0080 != 0 <==> owned)
        &&& (ex_bits & 0x0020_0000 != 0 <==> flip)
    }) by (bit_vector)
        requires
            !(maximized && minimized),
    ;
}

/// A new window goes where it was asked to: on the screen, or for one that belongs to another, where
/// that comes to on the screen. Where no position or no size was asked for, the system chooses. Only
/// a window that was given a size is resized once there is one, and to just that size.
pub proof fn law_new_windows_go_where_asked(
    builder: WindowBuilder,
    owned_position: PixelPoint,
    area: (i32, i32),
    plan: CreationPlan,
)
    requires
        builder.planned(owned_position, area, plan),
    ensures
        builder.position is None ==> plan.x == i32::MIN && plan.y == i32::MIN,
        builder.position matches Some(position) ==> (if plan.parent is Some {
            plan.x == owned_position.x && plan.y == owned_position.y
        } else {
            plan.x == position.x && plan.y == position.y
        }),
        builder.size is None ==> plan.width == i32::MIN && plan.height == i32::MIN
            && plan.settings.width == 0 && plan.settings.height == 0 && plan.resize is None,
        builder.size matches Some(size) ==> plan.width == area.0 && plan.height == area.1
            && plan.settings.width == area.0 && plan.settings.height == area.1 && (
        plan.resize matches Some(resize) && resize.size == size && resize.flags == 0x0216),
{
}

/// A new window is set up as it was described: with the owner, the menu and the frame that it was
/// given, at a scale of one, and without anything that it gets only later. One that belongs to
/// another takes no focus.
pub proof fn law_new_windows_are_as_described(
    builder: WindowBuilder,
    owned_position: PixelPoint,
    area: (i32, i32),
    plan: CreationPlan,
)
    requires
        builder.planned(owned_position, area, plan),
    ensures
        plan.parent is None <==> builder.level is None || builder.level->0 is AppWindow,
        plan.parent == plan.level.owner(),
        builder.level matches Some(level) ==> plan.level == level,
        builder.level is None ==> plan.level is AppWindow,
        plan.menu == builder.menu && plan.settings.has_menu == builder.menu is Some,
        plan.settings.is_focusable == plan.parent is None,
        plan.settings.has_titlebar == builder.show_titlebar,
        plan.settings.is_resizable == builder.resizable,
        plan.settings.is_transparent == builder.transparent,
        plan.settings.dpi_x == 96 && plan.settings.dpi_y == 96,
        !plan.settings.handle_titlebar && plan.settings.active_text_input is None,
        plan.style == builder.style_bits() && plan.ex_style == builder.ex_style_bits(),
{
}

/// Different cursors are shown as different cursors of the system, but for the open hand, which it
/// does not have; custom ones are shown as they are.
pub proof fn law_cursors_differ(first: Cursor, second: Cursor)
    ensures
        cursor_for(first) == cursor_for(second) ==> first == second || (first is Arrow
            || first is OpenHand) && (second is Arrow || second is OpenHand),
        first is Arrow || first is OpenHand <==> cursor_for(first) == CursorChoice::System(32512),
        first is IBeam <==> cursor_for(first) == CursorChoice::System(32513),
        first is Crosshair <==> cursor_for(first) == CursorChoice::System(32515),
        first is ResizeLeftRight <==> cursor_for(first) == CursorChoice::System(32644),
        first is ResizeUpDown <==> cursor_for(first) == CursorChoice::System(32645),
        first is NotAllowed <==> cursor_for(first) == CursorChoice::System(32648),
        first is Pointer <==> cursor_for(first) == CursorChoice::System(32649),
        first matches Cursor::Custom(id) ==> cursor_for(first) == CursorChoice::Custom(id),
{
}

/// A window is known from the message that creates it up to the last one, and asked about all of the
/// messages in between; it is forgotten only if it was known, and never in the message that brings
/// it.
pub proof fn law_windows_are_known_while_they_live(msg: u32, known: bool)
    ensures
        dispatch_for(msg, known).store <==> msg == 0x0001,
        dispatch_for(msg, known).ask <==> known || dispatch_for(msg, known).store,
        dispatch_for(msg, known).forget <==> known && msg == 0x0082,
        !(dispatch_for(msg, known).store && dispatch_for(msg, known).forget),
{
}

/// The insets and the content fill the window: across and down, they add up to its extent. The
/// corners may be given in any order.
pub proof fn law_insets_fill_the_window(insets: PixelInsets, window: PixelRect, content: PixelRect)
    requires
        are_insets(insets, window, content),
    ensures
        ({
            let turned = PixelRect {
                left: window.right,
                top: window.bottom,
                right: window.left,
                bottom: window.top,
            };
            &&& are_insets(insets, turned, content)
            &&& window.left <= window.right && content.left <= content.right ==> insets.left + (
            content.right - content.left) + insets.right == window.right - window.left
                && window.left + insets.left == content.left
            &&& window.top <= window.bottom && content.top <= content.bottom ==> insets.top + (
            content.bottom - content.top) + insets.bottom == window.bottom - window.top
                && window.top + insets.top == content.top
        }),
{
}

/// The areas that are to be painted once another is noted. One without extent is left out.
pub open spec fn noted(areas: Seq<PixelRect>, area: PixelRect) -> Seq<PixelRect> {
    if area.flat() {
        areas
    } else {
        areas.push(area)
    }
}

/// An area with any extent is painted; one without is not. What was noted before stays in order.
pub proof fn law_areas_with_extent_are_painted(areas: Seq<PixelRect>, area: PixelRect)
    ensures
        area.left != area.right && area.top != area.bottom ==> noted(areas, area).len() == areas.len()
            + 1 && noted(areas, area).last() == area,
        area.left == area.right || area.top == area.bottom ==> noted(areas, area) == areas,
        areas.is_prefix_of(noted(areas, area)),
{
}

/// Where a window is moved to: one that belongs to another is placed by that one.
pub open spec fn place_for(level: WindowLevel, position: DpPoint, screen_position: DpPoint) -> DpPoint {
    if level.owner() is Some {
        screen_position
    } else {
        position
    }
}

/// A window of the application is moved to where it was asked to go. Others go to the place on the
/// screen that their parent makes of it.
pub proof fn law_owned_windows_move_with_their_parent(
    level: WindowLevel,
    position: DpPoint,
    screen_position: DpPoint,
)
    ensures
        level is AppWindow ==> place_for(level, position, screen_position) == position,
        level !is AppWindow ==> place_for(level, position, screen_position) == screen_position,
{
}

/// Operations that wait are carried out after any message that calls the handler.
pub proof fn law_waiting_operations_follow_the_handler(
    before: MyWndProc,
    after: MyWndProc,
    message: Message,
    answers: Answers,
    effects: Seq<Effect>,
    i: int,
)
    requires
        before.follows(after, message, answers, effects),
        0 <= i < effects.len(),
        calls_handler(effects[i]),
    ensures
        needs_handler(message),
        before.available(answers),
{
}

} // verus!
