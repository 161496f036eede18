//! Window styles, placement flags and hit testing.

use vstd::prelude::*;

use crate::bits;
use crate::window::WindowState;

verus! {

pub const WS_MAXIMIZEBOX: u32 = 0x0001_0000;

pub const WS_MINIMIZEBOX: u32 = 0x0002_0000;

pub const WS_THICKFRAME: u32 = 0x0004_0000;

pub const WS_SYSMENU: u32 = 0x0008_0000;

pub const WS_MAXIMIZE: u32 = 0x0100_0000;

pub const WS_MINIMIZE: u32 = 0x2000_0000;

pub const WS_POPUP: u32 = 0x8000_0000;

pub const WS_OVERLAPPEDWINDOW: u32 = 0x00cf_0000;

pub const WS_EX_TOOLWINDOW: u32 = 0x0000_0080;

pub const WS_EX_NOREDIRECTIONBITMAP: u32 = 0x0020_0000;

pub const WS_EX_NOACTIVATE: u32 = 0x0800_0000;

pub const SWP_NOSIZE: u32 = 0x0001;

pub const SWP_NOMOVE: u32 = 0x0002;

pub const SWP_NOZORDER: u32 = 0x0004;

pub const SWP_NOACTIVATE: u32 = 0x0010;

pub const SWP_FRAMECHANGED: u32 = 0x0020;

pub const SWP_SHOWWINDOW: u32 = 0x0040;

pub const SWP_NOOWNERZORDER: u32 = 0x0200;

/// How a window is placed when only its size changes.
pub const RESIZE_FLAGS: u32 = 0x0216;

/// How a window is placed when only its position changes.
pub const MOVE_FLAGS: u32 = 0x0215;

/// How a window is placed when its frame has to be worked out anew.
pub const REFRAME_FLAGS: u32 = 0x0277;

/// How a window is placed when its scale changes.
pub const RESCALE_FLAGS: u32 = 0x0234;

/// The placements leave out what they do not change, and none of them activates the window or
/// moves it to the front.
pub proof fn law_placement_flags()
    ensures
        RESIZE_FLAGS == SWP_NOMOVE | SWP_NOZORDER | SWP_NOOWNERZORDER | SWP_NOACTIVATE,
        MOVE_FLAGS == SWP_NOSIZE | SWP_NOZORDER | SWP_NOOWNERZORDER | SWP_NOACTIVATE,
        REFRAME_FLAGS == SWP_SHOWWINDOW | SWP_NOMOVE | SWP_NOZORDER | SWP_FRAMECHANGED | SWP_NOSIZE
            | SWP_NOOWNERZORDER | SWP_NOACTIVATE,
        RESCALE_FLAGS == SWP_NOZORDER | SWP_FRAMECHANGED | SWP_NOOWNERZORDER | SWP_NOACTIVATE,
{
    assert(0x0216u32 == 0x0002u32 | 0x0004 | 0x0200 | 0x0010 && 0x0215u32 == 0x0001u32 | 0x0004
        | 0x0200 | 0x0010 && 0x0277u32 == 0x0040u32 | 0x0002 | 0x0004 | 0x0020 | 0x0001 | 0x0200
        | 0x0010 && 0x0234u32 == 0x0004u32 | 0x0020 | 0x0200 | 0x0010) by (bit_vector);
}

pub const SW_SHOWNORMAL: i32 = 1;

pub const SW_MAXIMIZE: i32 = 3;

pub const SW_SHOWNOACTIVATE: i32 = 4;

pub const SW_MINIMIZE: i32 = 6;

pub const SW_RESTORE: i32 = 9;

pub const HTCLIENT: i64 = 1;

pub const HTCAPTION: i64 = 2;

pub const HTLEFT: i64 = 10;

pub const HTRIGHT: i64 = 11;

pub const HTTOP: i64 = 12;

pub const HTTOPLEFT: i64 = 13;

pub const HTTOPRIGHT: i64 = 14;

pub const HTBOTTOM: i64 = 15;

pub const HTBOTTOMLEFT: i64 = 16;

pub const HTBOTTOMRIGHT: i64 = 17;

/// The style bits that make a window resizable.
pub open spec fn frame_bits() -> u32 {
    WS_THICKFRAME | WS_MAXIMIZEBOX
}

/// The style after changing whether the window can be resized and has a title bar. The minimize
/// box comes with a title bar, and stays when the title bar goes.
pub open spec fn styled(style: u32, resizable: bool, titlebar: bool) -> u32 {
    let framed = if resizable {
        style | frame_bits()
    } else {
        style & !frame_bits()
    };
    if titlebar {
        framed | (WS_MINIMIZEBOX | WS_SYSMENU)
    } else {
        framed & !WS_SYSMENU
    }
}

/// Changes a window's style. A style of 0 is what the system answers when it has none to tell, in
/// which case nothing is changed.
pub fn set_style(style: u32, resizable: bool, titlebar: bool) -> (changed: Option<u32>)
    ensures
        style == 0 ==> changed is None,
        style != 0 ==> changed == Some(styled(style, resizable, titlebar)),
{
    if style == 0 {
        return None;
    }
    let mut style: u32 = style;
    if !resizable {
        style = style & !(WS_THICKFRAME | WS_MAXIMIZEBOX);
    } else {
        style = style | (WS_THICKFRAME | WS_MAXIMIZEBOX);
    }
    if !titlebar {
        style = style & !WS_SYSMENU;
    } else {
        style = style | (WS_MINIMIZEBOX | WS_SYSMENU);
    }
    Some(style)
}

/// Each of the two settings shows in its own bits, whatever the style was before; every other bit
/// stays as it was; and doing it twice changes nothing more.
pub proof fn law_style_settings(style: u32, resizable: bool, titlebar: bool)
    ensures
        bits::any32(styled(style, resizable, titlebar), WS_THICKFRAME) == resizable,
        bits::any32(styled(style, resizable, titlebar), WS_MAXIMIZEBOX) == resizable,
        bits::any32(styled(style, resizable, titlebar), WS_SYSMENU) == titlebar,
        titlebar ==> bits::any32(styled(style, resizable, titlebar), WS_MINIMIZEBOX),
        styled(style, resizable, titlebar) & !0x000f_0000u32 == style & !0x000f_0000u32,
        styled(styled(style, resizable, titlebar), resizable, titlebar) == styled(
            style,
            resizable,
            titlebar,
        ),
{
    assert(forall|s: u32, r: bool, t: bool|
        #![trigger styled(s, r, t)]
        {
            let framed = if r {
                s | (0x0004_0000u32 | 0x0001_0000u32)
            } else {
                s & !(0x0004_0000u32 | 0x0001_0000u32)
            };
            let done = if t {
                framed | (0x0002_0000u32 | 0x0008_0000u32)
            } else {
                framed & !0x0008_0000u32
            };
            let framed2 = if r {
                done | (0x0004_0000u32 | 0x0001_0000u32)
            } else {
                done & !(0x0004_0000u32 | 0x0001_0000u32)
            };
            let done2 = if t {
                framed2 | (0x0002_0000u32 | 0x0008_0000u32)
            } else {
                framed2 & !0x0008_0000u32
            };
            &&& (done & 0x0004_0000u32 != 0) == r
            &&& (done & 0x0001_0000u32 != 0) == r
            &&& (done & 0x0008_0000u32 != 0) == t
            &&& t ==> done & 0x0002_0000u32 != 0
            &&& done & !0x000f_0000u32 == s & !0x000f_0000u32
            &&& done2 == done
        }) by (bit_vector);
    assert(styled(style, resizable, titlebar) == styled(style, resizable, titlebar));
}

/// The state that a window's style shows.
pub open spec fn state_shown(style: u32) -> WindowState {
    if bits::any32(style, WS_MAXIMIZE) {
        WindowState::Maximized
    } else if bits::any32(style, WS_MINIMIZE) {
        WindowState::Minimized
    } else {
        WindowState::Restored
    }
}

/// The state that a window's style shows.
pub fn window_state(style: u32) -> (state: WindowState)
    ensures
        state == state_shown(style),
{
    if style & WS_MAXIMIZE != 0 {
        WindowState::Maximized
    } else if style & WS_MINIMIZE != 0 {
        WindowState::Minimized
    } else {
        WindowState::Restored
    }
}

/// How to show a window that is in `state`.
pub open spec fn show_for(is_focusable: bool, state: WindowState) -> i32 {
    if !is_focusable {
        SW_SHOWNOACTIVATE
    } else {
        match state {
            WindowState::Maximized => SW_MAXIMIZE,
            WindowState::Minimized => SW_MINIMIZE,
            WindowState::Restored => SW_SHOWNORMAL,
        }
    }
}

/// How to bring a window into `state`.
pub open spec fn command_for(is_focusable: bool, state: WindowState) -> i32 {
    if !is_focusable {
        SW_SHOWNOACTIVATE
    } else {
        match state {
            WindowState::Maximized => SW_MAXIMIZE,
            WindowState::Minimized => SW_MINIMIZE,
            WindowState::Restored => SW_RESTORE,
        }
    }
}

/// How to show a window that is in `state`. A window that cannot be focused is shown without
/// activating it.
pub fn show_command(is_focusable: bool, state: WindowState) -> (command: i32)
    ensures
        command == show_for(is_focusable, state),
{
    if is_focusable {
        match state {
            WindowState::Maximized => SW_MAXIMIZE,
            WindowState::Minimized => SW_MINIMIZE,
            WindowState::Restored => SW_SHOWNORMAL,
        }
    } else {
        SW_SHOWNOACTIVATE
    }
}

/// How to bring a window into `state`.
pub fn state_command(is_focusable: bool, state: WindowState) -> (command: i32)
    ensures
        command == command_for(is_focusable, state),
{
    if is_focusable {
        match state {
            WindowState::Maximized => SW_MAXIMIZE,
            WindowState::Minimized => SW_MINIMIZE,
            WindowState::Restored => SW_RESTORE,
        }
    } else {
        SW_SHOWNOACTIVATE
    }
}

/// A rectangle in physical pixels. The right and bottom edges lie outside of it.
#[derive(Clone, Copy, Debug, PartialEq, Eq, Structural)]
pub struct PixelRect {
    pub left: i32,
    pub top: i32,
    pub right: i32,
    pub bottom: i32,
}

impl PixelRect {
    /// Whether the rectangle has no area. Edges in the wrong order give it a negative one, and
    /// two such pairs a positive one.
    pub open spec fn flat(self) -> bool {
        self.left == self.right || self.top == self.bottom
    }

    pub fn is_flat(&self) -> (flat: bool)
        ensures
            flat == self.flat(),
    {
        self.left == self.right || self.top == self.bottom
    }

    /// Whether the point lies inside: on the left and top edges it does, on the others not.
    pub open spec fn has_point(self, x: int, y: int) -> bool {
        self.left <= x < self.right && self.top <= y < self.bottom
    }

    pub fn contains(&self, x: i32, y: i32) -> (inside: bool)
        ensures
            inside == self.has_point(x as int, y as int),
    {
        self.left <= x && x < self.right && self.top <= y && y < self.bottom
    }
}

/// Which part of a window's resizing border a point lies on.
pub open spec fn border_hit(rect: PixelRect, x: int, y: int, size: int) -> Option<i64> {
    let left = x - rect.left <= size;
    let right = rect.right - x <= size;
    let top = y - rect.top <= size;
    let bottom = rect.bottom - y <= size;
    if top && left {
        Some(HTTOPLEFT)
    } else if top && right {
        Some(HTTOPRIGHT)
    } else if top {
        Some(HTTOP)
    } else if bottom && left {
        Some(HTBOTTOMLEFT)
    } else if bottom && right {
        Some(HTBOTTOMRIGHT)
    } else if bottom {
        Some(HTBOTTOM)
    } else if left {
        Some(HTLEFT)
    } else if right {
        Some(HTRIGHT)
    } else {
        None
    }
}

/// Which part of a window's resizing border a point lies on.
pub fn hit_border(rect: PixelRect, x: i32, y: i32, size: i64) -> (hit: Option<i64>)
    ensures
        hit == border_hit(rect, x as int, y as int, size as int),
{
    let x: i64 = x as i64;
    let y: i64 = y as i64;
    if y - rect.top as i64 <= size {
        if x - rect.left as i64 <= size {
            Some(HTTOPLEFT)
        } else if rect.right as i64 - x <= size {
            Some(HTTOPRIGHT)
        } else {
            Some(HTTOP)
        }
    } else if rect.bottom as i64 - y <= size {
        if x - rect.left as i64 <= size {
            Some(HTBOTTOMLEFT)
        } else if rect.right as i64 - x <= size {
            Some(HTBOTTOMRIGHT)
        } else {
            Some(HTBOTTOM)
        }
    } else if x - rect.left as i64 <= size {
        Some(HTLEFT)
    } else if rect.right as i64 - x <= size {
        Some(HTRIGHT)
    } else {
        None
    }
}

/// A point near an edge of a window lies on the part of the border that names just the edges that
/// it is near to; near two edges, on the corner between them. Away from all edges it lies on none.
pub proof fn law_borders_name_the_near_edges(rect: PixelRect, x: int, y: int, size: int)
    requires
        rect.right - rect.left > 2 * size,
        rect.bottom - rect.top > 2 * size,
    ensures
        ({
            let hit = border_hit(rect, x, y, size);
            let near_left = x <= rect.left + size;
            let near_right = x >= rect.right - size;
            let near_top = y <= rect.top + size;
            let near_bottom = y >= rect.bottom - size;
            &&& hit is None <==> !near_left && !near_right && !near_top && !near_bottom
            &&& hit == Some(10i64) <==> near_left && !near_top && !near_bottom
            &&& hit == Some(11i64) <==> near_right && !near_top && !near_bottom
            &&& hit == Some(12i64) <==> near_top && !near_left && !near_right
            &&& hit == Some(13i64) <==> near_top && near_left
            &&& hit == Some(14i64) <==> near_top && near_right
            &&& hit == Some(15i64) <==> near_bottom && !near_left && !near_right
            &&& hit == Some(16i64) <==> near_bottom && near_left
            &&& hit == Some(17i64) <==> near_bottom && near_right
        }),
{
}

/// A rectangle is flat exactly if it has no area, and then no point lies in it; the points in it are
/// those from its top left corner to before its bottom right one.
pub proof fn law_flat_rectangles_hold_no_point(rect: PixelRect, x: int, y: int)
    ensures
        rect.flat() <==> (rect.right - rect.left) * (rect.bottom - rect.top) == 0,
        rect.has_point(x, y) ==> !rect.flat(),
        rect.left < rect.right && rect.top < rect.bottom ==> rect.has_point(
            rect.left as int,
            rect.top as int,
        ) && rect.has_point(rect.right - 1, rect.bottom - 1) && !rect.flat(),
        !rect.has_point(rect.right as int, y) && !rect.has_point(x, rect.bottom as int),
        !rect.has_point(rect.left - 1, y) && !rect.has_point(x, rect.top - 1),
{
    let width = rect.right - rect.left;
    let height = rect.bottom - rect.top;
    assert(width * height == 0 <==> width == 0 || height == 0) by (nonlinear_arith);
}

/// A state that a style shows can be read from it, and the maximized one counts first.
pub proof fn law_states_are_read_from_the_style(style: u32)
    ensures
        state_shown(style) == WindowState::Maximized <==> style & 0x0100_0000 != 0,
        state_shown(style) == WindowState::Minimized <==> style & 0x0100_0000 == 0 && style
            & 0x2000_0000 != 0,
{
}

/// A window that cannot be focused is never activated, and no two states are asked for with the
/// same command. Showing a window and bringing it into a state only differ for a restored one.
pub proof fn law_commands_differ(focusable: bool, first: WindowState, second: WindowState)
    ensures
        !focusable ==> show_for(focusable, first) == 4 && command_for(focusable, first) == 4,
        focusable ==> (show_for(focusable, first) == show_for(focusable, second) <==> first
            == second),
        focusable ==> (command_for(focusable, first) == command_for(focusable, second) <==> first
            == second),
        focusable ==> (show_for(focusable, first) == command_for(focusable, first) <==> first
            != WindowState::Restored),
        focusable ==> show_for(focusable, WindowState::Restored) == 1 && command_for(
            focusable,
            WindowState::Restored,
        ) == 9,
        focusable ==> command_for(focusable, WindowState::Maximized) == 3 && command_for(
            focusable,
            WindowState::Minimized,
        ) == 6,
{
}

} // verus!
