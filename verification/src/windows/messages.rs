//! Window messages and what their parameters say.

use vstd::prelude::*;

use crate::mouse::{MouseButton, MouseButtons};

verus! {

pub const WM_CREATE: u32 = 0x0001;

pub const WM_DESTROY: u32 = 0x0002;

pub const WM_SIZE: u32 = 0x0005;

pub const WM_ACTIVATE: u32 = 0x0006;

pub const WM_SETFOCUS: u32 = 0x0007;

pub const WM_KILLFOCUS: u32 = 0x0008;

pub const WM_PAINT: u32 = 0x000f;

pub const WM_CLOSE: u32 = 0x0010;

pub const WM_ERASEBKGND: u32 = 0x0014;

pub const WM_GETMINMAXINFO: u32 = 0x0024;

pub const WM_GETOBJECT: u32 = 0x003d;

pub const WM_INPUTLANGCHANGE: u32 = 0x0051;

pub const WM_NCCALCSIZE: u32 = 0x0083;

pub const WM_NCHITTEST: u32 = 0x0084;

pub const WM_KEYDOWN: u32 = 0x0100;

pub const WM_KEYUP: u32 = 0x0101;

pub const WM_CHAR: u32 = 0x0102;

pub const WM_SYSKEYDOWN: u32 = 0x0104;

pub const WM_SYSKEYUP: u32 = 0x0105;

pub const WM_SYSCHAR: u32 = 0x0106;

pub const WM_COMMAND: u32 = 0x0111;

pub const WM_TIMER: u32 = 0x0113;

pub const WM_MOUSEMOVE: u32 = 0x0200;

pub const WM_LBUTTONDOWN: u32 = 0x0201;

pub const WM_LBUTTONUP: u32 = 0x0202;

pub const WM_LBUTTONDBLCLK: u32 = 0x0203;

pub const WM_RBUTTONDOWN: u32 = 0x0204;

pub const WM_RBUTTONUP: u32 = 0x0205;

pub const WM_RBUTTONDBLCLK: u32 = 0x0206;

pub const WM_MBUTTONDOWN: u32 = 0x0207;

pub const WM_MBUTTONUP: u32 = 0x0208;

pub const WM_MBUTTONDBLCLK: u32 = 0x0209;

pub const WM_MOUSEWHEEL: u32 = 0x020a;

pub const WM_XBUTTONDOWN: u32 = 0x020b;

pub const WM_XBUTTONUP: u32 = 0x020c;

pub const WM_XBUTTONDBLCLK: u32 = 0x020d;

pub const WM_MOUSEHWHEEL: u32 = 0x020e;

pub const WM_CAPTURECHANGED: u32 = 0x0215;

pub const WM_MOUSELEAVE: u32 = 0x02a3;

pub const WM_DPICHANGED: u32 = 0x02e0;

/// Message indicating there are idle tasks to run.
pub const DS_RUN_IDLE: u32 = 0x0400;

/// Message relaying a request to destroy the window.
///
/// Calling `DestroyWindow` from inside the handler is problematic
/// because it will recursively cause a `WM_DESTROY` message to be
/// sent to the window procedure, even while the handler is borrowed.
/// Thus, the message is dropped and the handler doesn't run.
///
/// As a solution, instead of immediately calling `DestroyWindow`, we
/// send this message to request destroying the window, so that at the
/// time it is handled, we can successfully borrow the handler.
pub const DS_REQUEST_DESTROY: u32 = 0x0401;

pub const MK_LBUTTON: u64 = 0x0001;

pub const MK_RBUTTON: u64 = 0x0002;

pub const MK_MBUTTON: u64 = 0x0010;

pub const MK_XBUTTON1: u64 = 0x0020;

pub const MK_XBUTTON2: u64 = 0x0040;

pub const XBUTTON1: u16 = 0x0001;

pub const XBUTTON2: u16 = 0x0002;

/// The lower half of a word of 32 bits.
pub open spec fn low(word: u32) -> u16 {
    (word % 0x1_0000) as u16
}

/// The upper half of a word of 32 bits.
pub open spec fn high(word: u32) -> u16 {
    (word / 0x1_0000) as u16
}

/// Sixteen bits as a signed number.
pub open spec fn signed(half: u16) -> i32 {
    if half < 0x8000 {
        half as i32
    } else {
        (half - 0x1_0000) as i32
    }
}

/// The low 32 bits of a message parameter.
pub open spec fn low32(wparam: u64) -> u32 {
    (wparam % 0x1_0000_0000) as u32
}

fn loword(word: u32) -> (half: u16)
    ensures
        half == low(word),
{
    (word % 0x1_0000) as u16
}

fn hiword(word: u32) -> (half: u16)
    ensures
        half == high(word),
{
    (word / 0x1_0000) as u16
}

fn as_signed(half: u16) -> (number: i32)
    ensures
        number == signed(half),
{
    if half < 0x8000 {
        half as i32
    } else {
        half as i32 - 0x1_0000
    }
}

/// Whether the buttons' bits in a mouse message say that `button` is held.
pub open spec fn held(wparam: u64, button: MouseButton) -> bool {
    match button {
        MouseButton::NoButton => false,
        MouseButton::Primary => wparam & MK_LBUTTON != 0,
        MouseButton::Secondary => wparam & MK_RBUTTON != 0,
        MouseButton::Auxiliary => wparam & MK_MBUTTON != 0,
        MouseButton::X1 => wparam & MK_XBUTTON1 != 0,
        MouseButton::X2 => wparam & MK_XBUTTON2 != 0,
    }
}

/// The buttons that a mouse message reports as held.
pub open spec fn held_buttons(wparam: u64) -> Set<MouseButton> {
    Set::new(|button: MouseButton| held(wparam, button))
}

/// Extract the buttons that are being held down from wparam in mouse events.
pub fn get_buttons(wparam: u64) -> (buttons: MouseButtons)
    ensures
        buttons@ == held_buttons(wparam),
{
    let mut buttons = MouseButtons::new();
    if wparam & MK_LBUTTON != 0 {
        buttons.insert(MouseButton::Primary);
    }
    if wparam & MK_RBUTTON != 0 {
        buttons.insert(MouseButton::Secondary);
    }
    if wparam & MK_MBUTTON != 0 {
        buttons.insert(MouseButton::Auxiliary);
    }
    if wparam & MK_XBUTTON1 != 0 {
        buttons.insert(MouseButton::X1);
    }
    if wparam & MK_XBUTTON2 != 0 {
        buttons.insert(MouseButton::X2);
    }
    assert(buttons@ =~= held_buttons(wparam));
    buttons
}

/// A window message with its parameters taken apart.
#[derive(Clone, Copy, Debug, PartialEq, Eq, Structural)]
pub enum Message {
    Create,
    Activate { active: bool },
    EraseBackground,
    SetFocus,
    KillFocus,
    Paint,
    DpiChanged { dpi_x: u16, dpi_y: u16 },
    NcCalcSize { client: bool },
    NcHitTest { x: i32, y: i32 },
    Size { width: u16, height: u16 },
    Command { id: u16 },
    Key,
    Wheel { delta: i32, held: u64, x: i32, y: i32, horizontal: bool },
    MouseMove { x: i32, y: i32, held: u64 },
    MouseLeave,
    /// A press or release. `None` is a button that is not known.
    Button { button: Option<MouseButton>, down: bool, x: i32, y: i32, held: u64 },
    Close,
    RequestDestroy,
    Destroy,
    Timer { id: u64 },
    CaptureChanged,
    GetMinMaxInfo,
    RunIdle,
    GetObject,
    /// Nothing that is handled here.
    Other,
}

/// Whether the message is about the keyboard.
pub open spec fn is_key_message(msg: u32) -> bool {
    msg == WM_CHAR || msg == WM_SYSCHAR || msg == WM_KEYDOWN || msg == WM_SYSKEYDOWN || msg
        == WM_KEYUP || msg == WM_SYSKEYUP || msg == WM_INPUTLANGCHANGE
}

/// Whether the message is a press or a release of a mouse button.
pub open spec fn is_button_message(msg: u32) -> bool {
    (WM_LBUTTONDOWN <= msg <= WM_MBUTTONDBLCLK) || (WM_XBUTTONDOWN <= msg <= WM_XBUTTONDBLCLK)
}

/// Whether a button message is a release.
pub open spec fn is_release(msg: u32) -> bool {
    msg == WM_LBUTTONUP || msg == WM_RBUTTONUP || msg == WM_MBUTTONUP || msg == WM_XBUTTONUP
}

/// The button that a button message is about.
pub open spec fn button_of(msg: u32, wparam: u64) -> Option<MouseButton> {
    if msg <= WM_LBUTTONDBLCLK {
        Some(MouseButton::Primary)
    } else if msg <= WM_RBUTTONDBLCLK {
        Some(MouseButton::Secondary)
    } else if msg <= WM_MBUTTONDBLCLK {
        Some(MouseButton::Auxiliary)
    } else if high(low32(wparam)) == XBUTTON1 {
        Some(MouseButton::X1)
    } else if high(low32(wparam)) == XBUTTON2 {
        Some(MouseButton::X2)
    } else {
        None
    }
}

/// What a message says.
pub open spec fn message_of(msg: u32, wparam: u64, lparam: u32) -> Message {
    let x = signed(low(lparam));
    let y = signed(high(lparam));
    if msg == WM_CREATE {
        Message::Create
    } else if msg == WM_ACTIVATE {
        Message::Activate { active: low(low32(wparam)) != 0 }
    } else if msg == WM_ERASEBKGND {
        Message::EraseBackground
    } else if msg == WM_SETFOCUS {
        Message::SetFocus
    } else if msg == WM_KILLFOCUS {
        Message::KillFocus
    } else if msg == WM_PAINT {
        Message::Paint
    } else if msg == WM_DPICHANGED {
        Message::DpiChanged { dpi_x: high(low32(wparam)), dpi_y: low(low32(wparam)) }
    } else if msg == WM_NCCALCSIZE {
        Message::NcCalcSize { client: wparam != 0 }
    } else if msg == WM_NCHITTEST {
        Message::NcHitTest { x, y }
    } else if msg == WM_SIZE {
        Message::Size { width: low(lparam), height: high(lparam) }
    } else if msg == WM_COMMAND {
        Message::Command { id: low(low32(wparam)) }
    } else if is_key_message(msg) {
        Message::Key
    } else if msg == WM_MOUSEWHEEL || msg == WM_MOUSEHWHEEL {
        Message::Wheel {
            delta: signed(high(low32(wparam))),
            held: low(low32(wparam)) as u64,
            x,
            y,
            horizontal: msg == WM_MOUSEHWHEEL,
        }
    } else if msg == WM_MOUSEMOVE {
        Message::MouseMove { x, y, held: wparam }
    } else if msg == WM_MOUSELEAVE {
        Message::MouseLeave
    } else if is_button_message(msg) {
        Message::Button {
            button: button_of(msg, wparam),
            down: !is_release(msg),
            x,
            y,
            held: wparam,
        }
    } else if msg == WM_CLOSE {
        Message::Close
    } else if msg == DS_REQUEST_DESTROY {
        Message::RequestDestroy
    } else if msg == WM_DESTROY {
        Message::Destroy
    } else if msg == WM_TIMER {
        Message::Timer { id: wparam }
    } else if msg == WM_CAPTURECHANGED {
        Message::CaptureChanged
    } else if msg == WM_GETMINMAXINFO {
        Message::GetMinMaxInfo
    } else if msg == DS_RUN_IDLE {
        Message::RunIdle
    } else if msg == WM_GETOBJECT {
        Message::GetObject
    } else {
        Message::Other
    }
}

/// The button that a button message is about.
fn decode_button(msg: u32, extra: u16) -> (button: Option<MouseButton>)
    requires
        is_button_message(msg),
    ensures
        forall|wparam: u64|
            high(low32(wparam)) == extra ==> button == #[trigger] button_of(msg, wparam),
{
    if msg <= WM_LBUTTONDBLCLK {
        Some(MouseButton::Primary)
    } else if msg <= WM_RBUTTONDBLCLK {
        Some(MouseButton::Secondary)
    } else if msg <= WM_MBUTTONDBLCLK {
        Some(MouseButton::Auxiliary)
    } else if extra == XBUTTON1 {
        Some(MouseButton::X1)
    } else if extra == XBUTTON2 {
        Some(MouseButton::X2)
    } else {
        None
    }
}

/// Takes a message apart. `lparam` is the low half of the second parameter; the messages whose
/// second parameter is a pointer do not look at it.
pub fn decode(msg: u32, wparam: u64, lparam: u32) -> (message: Message)
    ensures
        message == message_of(msg, wparam, lparam),
{
    let word: u32 = (wparam % 0x1_0000_0000) as u32;
    let x: i32 = as_signed(loword(lparam));
    let y: i32 = as_signed(hiword(lparam));
    if msg == WM_CREATE {
        Message::Create
    } else if msg == WM_ACTIVATE {
        Message::Activate { active: loword(word) != 0 }
    } else if msg == WM_ERASEBKGND {
        Message::EraseBackground
    } else if msg == WM_SETFOCUS {
        Message::SetFocus
    } else if msg == WM_KILLFOCUS {
        Message::KillFocus
    } else if msg == WM_PAINT {
        Message::Paint
    } else if msg == WM_DPICHANGED {
        Message::DpiChanged { dpi_x: hiword(word), dpi_y: loword(word) }
    } else if msg == WM_NCCALCSIZE {
        Message::NcCalcSize { client: wparam != 0 }
    } else if msg == WM_NCHITTEST {
        Message::NcHitTest { x, y }
    } else if msg == WM_SIZE {
        Message::Size { width: loword(lparam), height: hiword(lparam) }
    } else if msg == WM_COMMAND {
        Message::Command { id: loword(word) }
    } else if msg == WM_CHAR || msg == WM_SYSCHAR || msg == WM_KEYDOWN || msg == WM_SYSKEYDOWN
        || msg == WM_KEYUP || msg == WM_SYSKEYUP || msg == WM_INPUTLANGCHANGE {
        Message::Key
    } else if msg == WM_MOUSEWHEEL || msg == WM_MOUSEHWHEEL {
        Message::Wheel {
            delta: as_signed(hiword(word)),
            held: loword(word) as u64,
            x,
            y,
            horizontal: msg == WM_MOUSEHWHEEL,
        }
    } else if msg == WM_MOUSEMOVE {
        Message::MouseMove { x, y, held: wparam }
    } else if msg == WM_MOUSELEAVE {
        Message::MouseLeave
    } else if (WM_LBUTTONDOWN <= msg && msg <= WM_MBUTTONDBLCLK) || (WM_XBUTTONDOWN <= msg && msg
        <= WM_XBUTTONDBLCLK) {
        let down = !(msg == WM_LBUTTONUP || msg == WM_RBUTTONUP || msg == WM_MBUTTONUP || msg
            == WM_XBUTTONUP);
        Message::Button { button: decode_button(msg, hiword(word)), down, x, y, held: wparam }
    } else if msg == WM_CLOSE {
        Message::Close
    } else if msg == DS_REQUEST_DESTROY {
        Message::RequestDestroy
    } else if msg == WM_DESTROY {
        Message::Destroy
    } else if msg == WM_TIMER {
        Message::Timer { id: wparam }
    } else if msg == WM_CAPTURECHANGED {
        Message::CaptureChanged
    } else if msg == WM_GETMINMAXINFO {
        Message::GetMinMaxInfo
    } else if msg == DS_RUN_IDLE {
        Message::RunIdle
    } else if msg == WM_GETOBJECT {
        Message::GetObject
    } else {
        Message::Other
    }
}

/// Each of the button messages names its own button, whatever its parameters say: three messages
/// for the left button, three for the right one and three for the middle one. The messages of the
/// extra buttons name the one that their parameter counts, if there is one.
pub proof fn law_button_messages_name_their_button(msg: u32, wparam: u64, lparam: u32)
    requires
        message_of(msg, wparam, lparam) is Button,
    ensures
        ({
            let button = message_of(msg, wparam, lparam)->Button_button;
            let extra = (wparam / 0x1_0000) % 0x1_0000;
            &&& button == Some(MouseButton::Primary) <==> 0x0201 <= msg <= 0x0203
            &&& button == Some(MouseButton::Secondary) <==> 0x0204 <= msg <= 0x0206
            &&& button == Some(MouseButton::Auxiliary) <==> 0x0207 <= msg <= 0x0209
            &&& button == Some(MouseButton::X1) <==> 0x020b <= msg <= 0x020d && extra == 1
            &&& button == Some(MouseButton::X2) <==> 0x020b <= msg <= 0x020d && extra == 2
            &&& button != Some(MouseButton::NoButton)
        }),
{
}

/// The messages of one button belong together: a press, a release and a double click come one after
/// the other, name the same button, and only the middle one of them is a release.
pub proof fn law_presses_and_releases_go_together(msg: u32, wparam: u64, lparam: u32)
    requires
        msg == 0x0201 || msg == 0x0204 || msg == 0x0207 || msg == 0x020b,
    ensures
        ({
            let press = message_of(msg, wparam, lparam);
            let release = message_of((msg + 1) as u32, wparam, lparam);
            let double = message_of((msg + 2) as u32, wparam, lparam);
            &&& press is Button && release is Button
            &&& press->down && !release->down
            &&& press->Button_button == release->Button_button
            &&& press->Button_x == release->Button_x && press->Button_y == release->Button_y
            &&& press->Button_held == wparam && release->Button_held == wparam
            &&& double == press
        }),
{
}

/// Messages about other things are no button messages.
pub proof fn law_button_messages_are_known(msg: u32, wparam: u64, lparam: u32)
    ensures
        message_of(msg, wparam, lparam) is Button <==> 0x0201 <= msg <= 0x0209 || 0x020b <= msg
            <= 0x020d,
{
}

/// The held buttons are read from one bit each, and a press that says it holds just one button is a
/// press of the button that is read from that bit.
pub proof fn law_pressed_button_is_held(msg: u32, wparam: u64, lparam: u32)
    ensures
        forall|button: MouseButton| #[trigger]
            held_buttons(wparam).contains(button) <==> match button {
                MouseButton::NoButton => false,
                MouseButton::Primary => wparam & 0x01 != 0,
                MouseButton::Secondary => wparam & 0x02 != 0,
                MouseButton::Auxiliary => wparam & 0x10 != 0,
                MouseButton::X1 => wparam & 0x20 != 0,
                MouseButton::X2 => wparam & 0x40 != 0,
            },
        msg == WM_LBUTTONDOWN && wparam == MK_LBUTTON || msg == WM_RBUTTONDOWN && wparam
            == MK_RBUTTON || msg == WM_MBUTTONDOWN && wparam == MK_MBUTTON ==> (message_of(
            msg,
            wparam,
            lparam,
        ) matches Message::Button { button: Some(button), down, .. } && down && held_buttons(wparam)
            == Set::<MouseButton>::empty().insert(button)),
{
    assert(0x01u64 & 0x01 == 1 && 0x01u64 & 0x02 == 0 && 0x01u64 & 0x10 == 0 && 0x01u64 & 0x20 == 0
        && 0x01u64 & 0x40 == 0 && 0x02u64 & 0x01 == 0 && 0x02u64 & 0x02 == 2 && 0x02u64 & 0x10 == 0
        && 0x02u64 & 0x20 == 0 && 0x02u64 & 0x40 == 0 && 0x10u64 & 0x01 == 0 && 0x10u64 & 0x02 == 0
        && 0x10u64 & 0x10 == 16 && 0x10u64 & 0x20 == 0 && 0x10u64 & 0x40 == 0) by (bit_vector);
    if message_of(msg, wparam, lparam) is Button && message_of(
        msg,
        wparam,
        lparam,
    )->Button_button is Some {
        let button = message_of(msg, wparam, lparam)->Button_button->0;
        let one = Set::<MouseButton>::empty().insert(button);
        if msg == WM_LBUTTONDOWN && wparam == MK_LBUTTON || msg == WM_RBUTTONDOWN && wparam
            == MK_RBUTTON || msg == WM_MBUTTONDOWN && wparam == MK_MBUTTON {
            assert(held_buttons(wparam) =~= one);
        }
    }
}

/// A point that was packed into a parameter comes out again: the messages about the mouse report it
/// as it was, with points left of or above the origin too.
pub proof fn law_points_come_out_again(msg: u32, wparam: u64, lparam: u32, x: int, y: int)
    requires
        -0x8000 <= x < 0x8000,
        -0x8000 <= y < 0x8000,
        lparam == x % 0x1_0000 + 0x1_0000 * (y % 0x1_0000),
    ensures
        match message_of(msg, wparam, lparam) {
            Message::Button { x: at_x, y: at_y, .. } => at_x == x && at_y == y,
            Message::MouseMove { x: at_x, y: at_y, held } => at_x == x && at_y == y && held
                == wparam,
            Message::Wheel { x: at_x, y: at_y, .. } => at_x == x && at_y == y,
            Message::NcHitTest { x: at_x, y: at_y } => at_x == x && at_y == y,
            _ => true,
        },
{
}

/// A size that was packed into a parameter comes out again.
pub proof fn law_sizes_come_out_again(wparam: u64, lparam: u32, width: u16, height: u16)
    requires
        lparam == width + 0x1_0000 * height,
    ensures
        message_of(0x0005, wparam, lparam) == (Message::Size { width, height }),
{
}

/// A wheel that was turned by some amount, with some buttons held, is reported to have been: the
/// wheel message is about the vertical wheel and the other one about the horizontal one.
pub proof fn law_wheel_movements_come_out_again(
    msg: u32,
    wparam: u64,
    lparam: u32,
    amount: int,
    buttons: u16,
)
    requires
        msg == 0x020a || msg == 0x020e,
        -0x8000 <= amount < 0x8000,
        wparam % 0x1_0000_0000 == buttons + 0x1_0000 * (amount % 0x1_0000),
    ensures
        message_of(msg, wparam, lparam) matches Message::Wheel { delta, held, horizontal, .. }
            && delta == amount && held == buttons && horizontal == (msg == 0x020e),
{
}

/// A resolution that was packed into a parameter comes out again, and so does a command; a window is
/// active, or its client area is asked for, if the parameter is not zero.
pub proof fn law_numbers_come_out_again(wparam: u64, lparam: u32, low_half: u16, high_half: u16)
    requires
        wparam == low_half + 0x1_0000 * high_half,
    ensures
        message_of(0x02e0, wparam, lparam) == (Message::DpiChanged {
            dpi_x: high_half,
            dpi_y: low_half,
        }),
        message_of(0x0111, wparam, lparam) == (Message::Command { id: low_half }),
        message_of(0x0006, wparam, lparam) == (Message::Activate { active: low_half != 0 }),
        message_of(0x0083, wparam, lparam) == (Message::NcCalcSize { client: wparam != 0 }),
        message_of(0x0113, wparam, lparam) == (Message::Timer { id: wparam }),
{
}

/// Messages are told apart by their numbers alone: each number stands for one kind of message, and
/// numbers that are not listed for none.
pub proof fn law_messages_are_told_apart(msg: u32, wparam: u64, lparam: u32)
    ensures
        ({
            let message = message_of(msg, wparam, lparam);
            &&& message is Create <==> msg == 0x0001
            &&& message is Destroy <==> msg == 0x0002
            &&& message is Size <==> msg == 0x0005
            &&& message is Activate <==> msg == 0x0006
            &&& message is SetFocus <==> msg == 0x0007
            &&& message is KillFocus <==> msg == 0x0008
            &&& message is Paint <==> msg == 0x000f
            &&& message is Close <==> msg == 0x0010
            &&& message is EraseBackground <==> msg == 0x0014
            &&& message is GetMinMaxInfo <==> msg == 0x0024
            &&& message is GetObject <==> msg == 0x003d
            &&& message is NcCalcSize <==> msg == 0x0083
            &&& message is NcHitTest <==> msg == 0x0084
            &&& message is Key <==> msg == 0x0051 || 0x0100 <= msg <= 0x0102 || 0x0104 <= msg
                <= 0x0106
            &&& message is Command <==> msg == 0x0111
            &&& message is Timer <==> msg == 0x0113
            &&& message is MouseMove <==> msg == 0x0200
            &&& message is Wheel <==> msg == 0x020a || msg == 0x020e
            &&& message is CaptureChanged <==> msg == 0x0215
            &&& message is MouseLeave <==> msg == 0x02a3
            &&& message is DpiChanged <==> msg == 0x02e0
            &&& message is RunIdle <==> msg == 0x0400
            &&& message is RequestDestroy <==> msg == 0x0401
        }),
{
}

} // verus!
