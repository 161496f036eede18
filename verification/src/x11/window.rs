//! Windows: how they are created, the events they get, and what waits to be done with them.

use vstd::prelude::*;

use crate::bits;
use crate::geometry::{DpPoint, DpSize};
use crate::keyboard::{KeyState, Modifiers};
use crate::mouse::{Cursor, MouseButton, MouseButtons, MouseEvent, PixelPoint, WheelDelta};
use crate::text::TextFieldToken;
use crate::window::{IdleToken, TimerToken, WindowId, WindowLevel, WindowState};
use crate::windows::style::PixelRect;

verus! {

pub const MOD_SHIFT: u32 = 0x0001;

pub const MOD_LOCK: u32 = 0x0002;

pub const MOD_CONTROL: u32 = 0x0004;

pub const MOD_M1: u32 = 0x0008;

pub const MOD_M2: u32 = 0x0010;

pub const MOD_M4: u32 = 0x0040;

pub const BUTTON_M1: u32 = 0x0100;

pub const BUTTON_M2: u32 = 0x0200;

pub const BUTTON_M3: u32 = 0x0400;

pub const EVENT_KEY_PRESS: u32 = 0x0000_0001;

pub const EVENT_KEY_RELEASE: u32 = 0x0000_0002;

pub const EVENT_BUTTON_PRESS: u32 = 0x0000_0004;

pub const EVENT_BUTTON_RELEASE: u32 = 0x0000_0008;

pub const EVENT_LEAVE_WINDOW: u32 = 0x0000_0020;

pub const EVENT_POINTER_MOTION: u32 = 0x0000_0040;

pub const EVENT_EXPOSURE: u32 = 0x0000_8000;

pub const EVENT_STRUCTURE_NOTIFY: u32 = 0x0002_0000;

pub const EVENT_FOCUS_CHANGE: u32 = 0x0020_0000;

/// The events that a window wants to get.
pub const WINDOW_EVENTS: u32 = 0x0022_806f;

/// A window gets exactly the events that it wants.
pub proof fn law_window_events()
    ensures
        WINDOW_EVENTS == EVENT_EXPOSURE | EVENT_STRUCTURE_NOTIFY | EVENT_KEY_PRESS
            | EVENT_KEY_RELEASE | EVENT_BUTTON_PRESS | EVENT_BUTTON_RELEASE | EVENT_POINTER_MOTION
            | EVENT_FOCUS_CHANGE | EVENT_LEAVE_WINDOW,
{
    assert(0x0022_806fu32 == 0x8000u32 | 0x0002_0000 | 0x1 | 0x2 | 0x4 | 0x8 | 0x40 | 0x0020_0000
        | 0x20) by (bit_vector);
}

/// A visual, laid out for use by other libraries.
#[allow(non_camel_case_types)]
#[derive(Clone, Copy, Debug)]
pub struct xcb_visualtype_t {
    pub visual_id: u32,
    pub class: u8,
    pub bits_per_rgb_value: u8,
    pub colormap_entries: u16,
    pub red_mask: u32,
    pub green_mask: u32,
    pub blue_mask: u32,
    pub pad0: [u8; 4],
}

/// A visual, as the server describes it.
#[derive(Clone, Copy, Debug)]
pub struct Visualtype {
    pub visual_id: u32,
    pub class: u8,
    pub bits_per_rgb_value: u8,
    pub colormap_entries: u16,
    pub red_mask: u32,
    pub green_mask: u32,
    pub blue_mask: u32,
}

impl vstd::std_specs::convert::FromSpecImpl<Visualtype> for xcb_visualtype_t {
    open spec fn obeys_from_spec() -> bool {
        true
    }

    open spec fn from_spec(value: Visualtype) -> xcb_visualtype_t {
        xcb_visualtype_t {
            visual_id: value.visual_id,
            class: value.class,
            bits_per_rgb_value: value.bits_per_rgb_value,
            colormap_entries: value.colormap_entries,
            red_mask: value.red_mask,
            green_mask: value.green_mask,
            blue_mask: value.blue_mask,
            pad0: [0, 0, 0, 0],
        }
    }
}

impl From<Visualtype> for xcb_visualtype_t {
    fn from(value: Visualtype) -> (visual: xcb_visualtype_t) {
        xcb_visualtype_t {
            visual_id: value.visual_id,
            class: value.class,
            bits_per_rgb_value: value.bits_per_rgb_value,
            colormap_entries: value.colormap_entries,
            red_mask: value.red_mask,
            green_mask: value.green_mask,
            blue_mask: value.blue_mask,
            pad0: [0, 0, 0, 0],
        }
    }
}

/// The bits of a double that is 1.
pub const ONE: u64 = 0x3ff0_0000_0000_0000;

/// The bits of a double that is 500.
pub const DEFAULT_WIDTH: u64 = 0x407f_4000_0000_0000;

/// The bits of a double that is 400.
pub const DEFAULT_HEIGHT: u64 = 0x4079_0000_0000_0000;

/// The bits of a double that is a negative zero.
pub const NEGATIVE_ZERO: u64 = 0x8000_0000_0000_0000;

/// Whether the bits of a double say that it is zero.
pub open spec fn is_zero(number: u64) -> bool {
    number == 0 || number == NEGATIVE_ZERO
}

/// A size that a window can have: one without extent is replaced.
pub open spec fn usable(size: DpSize) -> DpSize {
    if is_zero(size.width) || is_zero(size.height) {
        DpSize { width: ONE, height: ONE }
    } else {
        size
    }
}

/// No window is without extent, and one that has any is as large as it was asked to be.
pub proof fn law_windows_have_an_extent(size: DpSize)
    ensures
        !is_zero(usable(size).width) && !is_zero(usable(size).height),
        usable(usable(size)) == usable(size),
        size.width != 0 && size.width != NEGATIVE_ZERO && size.height != 0 && size.height
            != NEGATIVE_ZERO ==> usable(size) == size,
        usable(size) != size ==> usable(size).width == ONE && usable(size).height == ONE,
{
}

/// Limits of a window's size.
#[derive(Clone, Copy, Debug, PartialEq, Eq, Structural)]
pub struct SizeLimit {
    pub width: i32,
    pub height: i32,
}

/// What the window manager is told about the size of a window.
#[derive(Clone, Copy, Debug, PartialEq, Eq, Structural)]
pub struct SizeHints {
    pub min_size: Option<SizeLimit>,
    pub max_size: Option<SizeLimit>,
}

/// What the window manager is told about the size of a window. One that cannot be resized has its
/// size as both limits.
pub open spec fn hints_for(resizable: bool, size: SizeLimit, min_size: SizeLimit) -> SizeHints {
    if resizable {
        SizeHints { min_size: Some(min_size), max_size: None }
    } else {
        SizeHints { min_size: Some(size), max_size: Some(size) }
    }
}

/// What the window manager is told about the size of a window. One that cannot be resized has its
/// size as both limits.
pub fn size_hints(resizable: bool, size: SizeLimit, min_size: SizeLimit) -> (hints: SizeHints)
    ensures
        hints == hints_for(resizable, size, min_size),
{
    if resizable {
        SizeHints { min_size: Some(min_size), max_size: None }
    } else {
        SizeHints { min_size: Some(size), max_size: Some(size) }
    }
}

/// A byte in upper case, if it is a letter of ASCII.
pub open spec fn upper(byte: u8) -> u8 {
    if 97 <= byte <= 122 {
        (byte - 32) as u8
    } else {
        byte
    }
}

/// The class of a window: the program's name, and the same with its first letter in upper case,
/// each followed by a zero.
pub open spec fn class_of(name: Seq<u8>) -> Seq<u8> {
    name + seq![0u8] + seq![upper(name[0])] + name.skip(1) + seq![0u8]
}

/// Makes up the class of a window from the program's name, as ICCCM asks for it: two consecutive
/// null-terminated strings, which specify the Instance and Class names.
pub fn wm_class(name: &[u8]) -> (class: Vec<u8>)
    requires
        name@.len() > 0,
    ensures
        class@ == class_of(name@),
{
    let mut class: Vec<u8> = Vec::new();
    let mut i: usize = 0;
    while i < name.len()
        invariant
            i <= name@.len(),
            class@ == name@.take(i as int),
        decreases name.len() - i,
    {
        class.push(name[i]);
        i += 1;
        assert(class@ =~= name@.take(i as int));
    }
    class.push(0);
    let first: u8 = name[0];
    if first >= 97 && first <= 122 {
        class.push(first - 32);
    } else {
        class.push(first);
    }
    let ghost start = class@;
    let mut j: usize = 1;
    while j < name.len()
        invariant
            1 <= j <= name@.len(),
            class@ == start + name@.subrange(1, j as int),
        decreases name.len() - j,
    {
        class.push(name[j]);
        j += 1;
        assert(class@ =~= start + name@.subrange(1, j as int));
    }
    class.push(0);
    assert(class@ =~= class_of(name@));
    class
}

/// Where a setting was found.
#[derive(Clone, Copy, Debug, PartialEq, Eq, Structural)]
pub enum Lookup {
    Absent,
    Number,
    /// There is something, but it is no number.
    Unparsable,
}

/// Where the resolution of the screen comes from.
#[derive(Clone, Copy, Debug, PartialEq, Eq, Structural)]
pub enum DpiSource {
    Environment,
    Resources,
    Default,
}

/// Where the resolution of the screen comes from.
pub open spec fn dpi_source_for(environment: Lookup, resources: Lookup) -> DpiSource {
    match (environment, resources) {
        (Lookup::Number, _) => DpiSource::Environment,
        (Lookup::Unparsable, _) => DpiSource::Default,
        (Lookup::Absent, Lookup::Number) => DpiSource::Resources,
        (Lookup::Absent, _) => DpiSource::Default,
    }
}

/// Chooses where the resolution of the screen comes from. The environment counts before the X
/// resources, even if it holds no number.
pub fn dpi_source(environment: Lookup, resources: Lookup) -> (source: DpiSource)
    ensures
        source == dpi_source_for(environment, resources),
{
    match environment {
        Lookup::Number => DpiSource::Environment,
        Lookup::Unparsable => DpiSource::Default,
        Lookup::Absent => match resources {
            Lookup::Number => DpiSource::Resources,
            _ => DpiSource::Default,
        },
    }
}

/// The type of a window, for the window manager.
#[derive(Clone, Copy, Debug, PartialEq, Eq, Structural)]
pub enum WindowType {
    Normal,
    Tooltip,
    Dialog,
    DropdownMenu,
}

/// The state that a window starts in, for the window manager.
#[derive(Clone, Copy, Debug, PartialEq, Eq, Structural)]
pub enum InitialState {
    Normal,
    Iconic,
}

/// A screen, as the server describes it.
#[derive(Clone, Copy, Debug, PartialEq, Eq, Structural)]
pub struct Screen {
    pub root: u32,
    pub root_depth: u8,
    pub white_pixel: u32,
    pub root_visual: u32,
    /// A visual with an alpha channel, if there is one.
    pub argb_visual: Option<u32>,
}

/// Sizes and positions in physical pixels.
#[derive(Clone, Copy, Debug, PartialEq, Eq, Structural)]
pub struct Placement {
    pub x: i16,
    pub y: i16,
    pub width: u16,
    pub height: u16,
    /// The size and the smallest size, for the window manager.
    pub size: SizeLimit,
    pub min_size: SizeLimit,
    /// Where a window that was given a position is moved to.
    pub moved: PixelPoint,
}

/// How a window is to be created.
#[derive(Clone, Copy, Debug, PartialEq, Eq, Structural)]
pub struct CreationPlan {
    pub depth: u8,
    pub parent: u32,
    pub x: i16,
    pub y: i16,
    pub width: u16,
    pub height: u16,
    pub visual: u32,
    pub event_mask: u32,
    /// The color of the border, for a window with a colormap of its own.
    pub border_pixel: Option<u32>,
    pub hints: SizeHints,
    pub initial_state: Option<InitialState>,
    pub window_type: WindowType,
    /// Whether the window manager leaves the window alone.
    pub override_redirect: bool,
    pub owner: Option<WindowId>,
    /// Where the window is moved to once it is created.
    pub move_to: Option<PixelPoint>,
}

/// There is no screen with this number.
#[derive(Clone, Copy, Debug, PartialEq, Eq, Structural)]
pub struct InvalidScreen(pub usize);

/// Builder abstraction for creating new windows.
#[derive(Debug)]
pub struct WindowBuilder {
    pub title: String,
    pub transparent: bool,
    pub position: Option<DpPoint>,
    pub size: DpSize,
    pub min_size: DpSize,
    pub resizable: bool,
    pub level: WindowLevel,
    pub state: Option<WindowState>,
}

impl WindowBuilder {
    pub fn new() -> (builder: WindowBuilder)
        ensures
            builder.title@ == Seq::<char>::empty(),
            !builder.transparent,
            builder.position is None,
            builder.size == (DpSize { width: DEFAULT_WIDTH, height: DEFAULT_HEIGHT }),
            builder.min_size == (DpSize { width: 0, height: 0 }),
            builder.resizable,
            builder.level == WindowLevel::AppWindow,
            builder.state is None,
    {
        WindowBuilder {
            title: String::new(),
            transparent: false,
            position: None,
            size: DpSize { width: DEFAULT_WIDTH, height: DEFAULT_HEIGHT },
            min_size: DpSize { width: 0, height: 0 },
            resizable: true,
            level: WindowLevel::AppWindow,
            state: None,
        }
    }

    /// Sets the size. A zero sized window results in server error, so one without extent is made a
    /// single point.
    pub fn set_size(&mut self, size: DpSize)
        ensures
            *final(self) == (WindowBuilder {
                size: usable(size),
                ..*old(self)
            }),
    {
        if size.width == 0 || size.width == NEGATIVE_ZERO || size.height == 0 || size.height
            == NEGATIVE_ZERO {
            self.size = DpSize { width: ONE, height: ONE };
        } else {
            self.size = size;
        }
    }

    /// Sets the smallest size.
    pub fn set_min_size(&mut self, min_size: DpSize)
        ensures
            *final(self) == (WindowBuilder { min_size, ..*old(self) }),
    {
        self.min_size = min_size;
    }

    /// Sets whether the window can be resized.
    pub fn resizable(&mut self, resizable: bool)
        ensures
            *final(self) == (WindowBuilder { resizable, ..*old(self) }),
    {
        self.resizable = resizable;
    }

    /// Sets whether the window is to be transparent.
    pub fn set_transparent(&mut self, transparent: bool)
        ensures
            *final(self) == (WindowBuilder { transparent, ..*old(self) }),
    {
        self.transparent = transparent;
    }

    /// Sets the level.
    pub fn set_level(&mut self, level: WindowLevel)
        ensures
            *final(self) == (WindowBuilder { level, ..*old(self) }),
    {
        self.level = level;
    }

    /// Sets the state that the window starts in.
    pub fn set_window_state(&mut self, state: WindowState)
        ensures
            *final(self) == (WindowBuilder { state: Some(state), ..*old(self) }),
    {
        self.state = Some(state);
    }

    /// Sets the title.
    pub fn set_title(&mut self, title: String)
        ensures
            *final(self) == (WindowBuilder { title, ..*old(self) }),
    {
        self.title = title;
    }

    /// Sets where the window goes, counted from the window that it belongs to.
    pub fn set_position(&mut self, position: DpPoint)
        ensures
            *final(self) == (WindowBuilder { position: Some(position), ..*old(self) }),
    {
        self.position = Some(position);
    }

    /// Whether the window can be transparent: it is asked for, and there is a visual for it.
    pub open spec fn is_transparent(self, screen: Screen) -> bool {
        self.transparent && screen.argb_visual is Some
    }

    /// How the window is created on a screen.
    pub open spec fn plan(self, screen: Screen, placement: Placement) -> CreationPlan {
        let transparent = self.is_transparent(screen);
        CreationPlan {
            depth: if transparent {
                32
            } else {
                screen.root_depth
            },
            parent: screen.root,
            x: placement.x,
            y: placement.y,
            width: placement.width,
            height: placement.height,
            visual: if transparent {
                screen.argb_visual->0
            } else {
                screen.root_visual
            },
            event_mask: WINDOW_EVENTS,
            border_pixel: if transparent {
                Some(screen.white_pixel)
            } else {
                None
            },
            hints: if self.resizable {
                SizeHints { min_size: Some(placement.min_size), max_size: None }
            } else {
                SizeHints { min_size: Some(placement.size), max_size: Some(placement.size) }
            },
            initial_state: match self.state {
                None => None,
                Some(WindowState::Minimized) => Some(InitialState::Iconic),
                Some(_) => Some(InitialState::Normal),
            },
            window_type: match self.level {
                WindowLevel::AppWindow => WindowType::Normal,
                WindowLevel::Tooltip(_) => WindowType::Tooltip,
                WindowLevel::Modal(_) => WindowType::Dialog,
                WindowLevel::DropDown(_) => WindowType::DropdownMenu,
            },
            override_redirect: self.level.owner() is Some,
            owner: self.level.owner(),
            move_to: if self.position is Some {
                Some(placement.moved)
            } else {
                None
            },
        }
    }

    /// Decides how the window is created. `placement` is where it goes on the screen, in pixels,
    /// with the origin of the window that it belongs to counted in.
    pub fn build(&self, screens: &Vec<Screen>, screen_num: usize, placement: Placement) -> (plan:
        Result<CreationPlan, InvalidScreen>)
        ensures
            match plan {
                Ok(plan) => screen_num < screens@.len() && plan == self.plan(
                    screens@[screen_num as int],
                    placement,
                ),
                Err(error) => screen_num >= screens@.len() && error == InvalidScreen(screen_num),
            },
    {
        if screen_num >= screens.len() {
            return Err(InvalidScreen(screen_num));
        }
        let screen = screens[screen_num];
        let visual_type = if self.transparent {
            screen.argb_visual
        } else {
            None
        };
        let (transparent, visual) = match visual_type {
            Some(visual) => (true, visual),
            None => (false, screen.root_visual),
        };
        let border_pixel = if transparent {
            Some(screen.white_pixel)
        } else {
            None
        };
        let depth: u8 = if transparent {
            32
        } else {
            screen.root_depth
        };
        let initial_state = match self.state {
            None => None,
            Some(state) => Some(
                match state {
                    WindowState::Maximized => InitialState::Normal,
                    WindowState::Minimized => InitialState::Iconic,
                    WindowState::Restored => InitialState::Normal,
                },
            ),
        };
        let window_type = match self.level {
            WindowLevel::AppWindow => WindowType::Normal,
            WindowLevel::Tooltip(_) => WindowType::Tooltip,
            WindowLevel::Modal(_) => WindowType::Dialog,
            WindowLevel::DropDown(_) => WindowType::DropdownMenu,
        };
        let owner = self.level.parent();
        let move_to = if self.position.is_some() {
            Some(placement.moved)
        } else {
            None
        };
        Ok(
            CreationPlan {
                depth,
                parent: screen.root,
                x: placement.x,
                y: placement.y,
                width: placement.width,
                height: placement.height,
                visual,
                event_mask: WINDOW_EVENTS,
                border_pixel,
                hints: size_hints(self.resizable, placement.size, placement.min_size),
                initial_state,
                window_type,
                override_redirect: owner.is_some(),
                owner,
                move_to,
            },
        )
    }
}

/// The button that an event is about.
pub open spec fn button_for(detail: u8) -> MouseButton {
    if detail == 1 {
        MouseButton::Primary
    } else if detail == 2 {
        MouseButton::Auxiliary
    } else if detail == 3 {
        MouseButton::Secondary
    } else if detail == 8 {
        MouseButton::X1
    } else if detail == 9 {
        MouseButton::X2
    } else {
        MouseButton::NoButton
    }
}

/// The button that an event is about. Buttons 4 through 7 are for scrolling, and others are not
/// known.
pub fn mouse_button(detail: u8) -> (button: MouseButton)
    ensures
        button == button_for(detail),
{
    match detail {
        1 => MouseButton::Primary,
        2 => MouseButton::Auxiliary,
        3 => MouseButton::Secondary,
        8 => MouseButton::X1,
        9 => MouseButton::X2,
        _ => MouseButton::NoButton,
    }
}

/// The buttons that the state of an event says are held.
pub open spec fn held_buttons(state: u32) -> Set<MouseButton> {
    Set::new(
        |button: MouseButton|
            match button {
                MouseButton::Primary => bits::any32(state, BUTTON_M1),
                MouseButton::Auxiliary => bits::any32(state, BUTTON_M2),
                MouseButton::Secondary => bits::any32(state, BUTTON_M3),
                _ => false,
            },
    )
}

/// Extracts the mouse buttons from the state of an event. The masks of the fourth and fifth button
/// are for scroll events.
pub fn mouse_buttons(state: u32) -> (buttons: MouseButtons)
    ensures
        buttons@ == held_buttons(state),
{
    let mut buttons = MouseButtons::new();
    if state & BUTTON_M1 != 0 {
        buttons.insert(MouseButton::Primary);
    }
    if state & BUTTON_M2 != 0 {
        buttons.insert(MouseButton::Auxiliary);
    }
    if state & BUTTON_M3 != 0 {
        buttons.insert(MouseButton::Secondary);
    }
    assert(buttons@ =~= held_buttons(state));
    buttons
}

/// The flag of a modifier, if the state of an event says that it is held.
pub open spec fn flag_if(state: u32, mask: u32, flag: u32) -> u32 {
    if bits::any32(state, mask) {
        flag
    } else {
        0
    }
}

/// The modifiers that the state of an event says are held.
///
/// X11's mod keys are configurable, but this seems
/// like a reasonable default for US keyboards, at least,
/// where the "windows" key seems to be MOD_MASK_4.
pub open spec fn held_mods(state: u32) -> Modifiers {
    Modifiers::of(
        flag_if(state, MOD_SHIFT, Modifiers::SHIFT) | flag_if(
            state,
            MOD_CONTROL,
            Modifiers::CONTROL,
        ) | flag_if(state, MOD_M1, Modifiers::ALT) | flag_if(state, MOD_M2, Modifiers::NUM_LOCK)
            | flag_if(state, MOD_M4, Modifiers::META) | flag_if(
            state,
            MOD_LOCK,
            Modifiers::CAPS_LOCK,
        ),
    )
}

/// Extracts the keyboard modifiers from the state of an event.
pub fn key_mods(state: u32) -> (mods: Modifiers)
    ensures
        mods == held_mods(state),
{
    let mut mods = Modifiers::empty();
    proof {
        assert(forall|a: u32| #[trigger] (a | 0u32) == a) by (bit_vector);
        assert(forall|a: u32| #[trigger] (0u32 | a) == a) by (bit_vector);
    }
    if state & MOD_SHIFT != 0 {
        mods.insert(Modifiers::SHIFT);
    }
    if state & MOD_CONTROL != 0 {
        mods.insert(Modifiers::CONTROL);
    }
    if state & MOD_M1 != 0 {
        mods.insert(Modifiers::ALT);
    }
    if state & MOD_M2 != 0 {
        mods.insert(Modifiers::NUM_LOCK);
    }
    if state & MOD_M4 != 0 {
        mods.insert(Modifiers::META);
    }
    if state & MOD_LOCK != 0 {
        mods.insert(Modifiers::CAPS_LOCK);
    }
    mods
}

/// An event of the pointer.
#[derive(Clone, Copy, Debug)]
pub struct PointerInput {
    pub x: i16,
    pub y: i16,
    /// The button, as the server counts them.
    pub detail: u8,
    /// The buttons and modifiers that were held before the event.
    pub state: u32,
}

/// What every mouse event takes over from an event of the pointer.
pub open spec fn reports(event: MouseEvent, input: PointerInput) -> bool {
    &&& event.pos == (PixelPoint { x: input.x as i32, y: input.y as i32 })
    &&& event.mods == held_mods(input.state)
    &&& !event.focus
}

/// The buttons that are held after a press.
pub open spec fn pressed_buttons(input: PointerInput) -> Set<MouseButton> {
    if button_for(input.detail) == MouseButton::NoButton {
        held_buttons(input.state)
    } else {
        held_buttons(input.state).insert(button_for(input.detail))
    }
}

/// The buttons that are held after a release.
pub open spec fn released_buttons(input: PointerInput) -> Set<MouseButton> {
    held_buttons(input.state).remove(button_for(input.detail))
}

/// A press of a button. The state of the event doesn't include the newly pressed button, but it is
/// to be included.
pub fn handle_button_press(input: &PointerInput) -> (event: MouseEvent)
    ensures
        reports(event, *input),
        event.button == button_for(input.detail),
        event.buttons@ == pressed_buttons(*input),
        event.count == 1,
        event.wheel_delta == (WheelDelta { x: 0, y: 0 }),
{
    let button = mouse_button(input.detail);
    MouseEvent {
        pos: PixelPoint { x: input.x as i32, y: input.y as i32 },
        buttons: mouse_buttons(input.state).with(button),
        mods: key_mods(input.state),
        count: 1,
        focus: false,
        button,
        wheel_delta: WheelDelta { x: 0, y: 0 },
    }
}

/// A release of a button. The state of the event includes the newly released button, but it is not
/// to be included.
pub fn handle_button_release(input: &PointerInput) -> (event: MouseEvent)
    ensures
        reports(event, *input),
        event.button == button_for(input.detail),
        event.buttons@ == released_buttons(*input),
        event.count == 0,
        event.wheel_delta == (WheelDelta { x: 0, y: 0 }),
{
    let button = mouse_button(input.detail);
    MouseEvent {
        pos: PixelPoint { x: input.x as i32, y: input.y as i32 },
        buttons: mouse_buttons(input.state).without(button),
        mods: key_mods(input.state),
        count: 0,
        focus: false,
        button,
        wheel_delta: WheelDelta { x: 0, y: 0 },
    }
}

/// An event that is about no button of a wheel.
#[derive(Clone, Copy, Debug, PartialEq, Eq, Structural)]
pub struct UnexpectedWheelButton(pub u8);

/// The movement of the wheel. We use a delta of 120 per tick to match the behavior of Windows.
/// Shift turns a vertical movement into a horizontal one.
pub open spec fn wheel_movement(detail: u8, shift: bool) -> Option<WheelDelta> {
    if detail == 4 && shift {
        Some(WheelDelta { x: (-120) as i32, y: 0 })
    } else if detail == 4 {
        Some(WheelDelta { x: 0, y: (-120) as i32 })
    } else if detail == 5 && shift {
        Some(WheelDelta { x: 120, y: 0 })
    } else if detail == 5 {
        Some(WheelDelta { x: 0, y: 120 })
    } else if detail == 6 {
        Some(WheelDelta { x: (-120) as i32, y: 0 })
    } else if detail == 7 {
        Some(WheelDelta { x: 120, y: 0 })
    } else {
        None
    }
}

/// A movement of the wheel.
pub fn handle_wheel(input: &PointerInput) -> (result: Result<MouseEvent, UnexpectedWheelButton>)
    ensures
        wheel_reported(*input, result),
{
    let mods = key_mods(input.state);
    let is_shift = mods.shift();
    let wheel_delta = match input.detail {
        4 => if is_shift {
            WheelDelta { x: -120, y: 0 }
        } else {
            WheelDelta { x: 0, y: -120 }
        },
        5 => if is_shift {
            WheelDelta { x: 120, y: 0 }
        } else {
            WheelDelta { x: 0, y: 120 }
        },
        6 => WheelDelta { x: -120, y: 0 },
        7 => WheelDelta { x: 120, y: 0 },
        _ => {
            return Err(UnexpectedWheelButton(input.detail));
        },
    };
    Ok(
        MouseEvent {
            pos: PixelPoint { x: input.x as i32, y: input.y as i32 },
            buttons: mouse_buttons(input.state),
            mods,
            count: 0,
            focus: false,
            button: MouseButton::NoButton,
            wheel_delta,
        },
    )
}

/// A movement of the pointer.
pub fn handle_motion_notify(input: &PointerInput) -> (event: MouseEvent)
    ensures
        reports(event, *input),
        event.buttons@ == held_buttons(input.state),
        event.count == 0,
        event.button == MouseButton::NoButton,
        event.wheel_delta == (WheelDelta { x: 0, y: 0 }),
{
    MouseEvent {
        pos: PixelPoint { x: input.x as i32, y: input.y as i32 },
        buttons: mouse_buttons(input.state),
        mods: key_mods(input.state),
        count: 0,
        focus: false,
        button: MouseButton::NoButton,
        wheel_delta: WheelDelta { x: 0, y: 0 },
    }
}

/// A button that is pressed and then released, with no other button changing, is held in between,
/// and not before or after.
pub proof fn law_press_and_release(press: PointerInput, release: PointerInput)
    requires
        release.detail == press.detail,
        !held_buttons(press.state).contains(button_for(press.detail)),
        forall|other: MouseButton|
            other != button_for(press.detail) ==> held_buttons(press.state).contains(other)
                == held_buttons(release.state).contains(other),
    ensures
        button_for(press.detail) != MouseButton::NoButton ==> pressed_buttons(press).contains(
            button_for(press.detail),
        ),
        !released_buttons(release).contains(button_for(press.detail)),
        released_buttons(release) == held_buttons(press.state),
{
    assert(released_buttons(release) =~= held_buttons(press.state));
}

/// Whether a message of the window manager asks to close the window.
pub fn handle_client_message(
    message_type: u32,
    format: u8,
    first: u32,
    wm_protocols: u32,
    wm_delete_window: u32,
) -> (close: bool)
    ensures
        close == (message_type == wm_protocols && format == 32 && first == wm_delete_window),
{
    message_type == wm_protocols && format == 32 && first == wm_delete_window
}

/// Where a key of a window goes.
#[derive(Clone, Copy, Debug, PartialEq, Eq, Structural)]
pub enum KeyTarget {
    /// Type it into the focused text field, if there is one.
    TextField(Option<TextFieldToken>),
    /// Tell the handler about a release.
    KeyUp,
}

/// The cursors that the server has, as far as they could be loaded.
#[derive(Clone, Copy, Debug, PartialEq, Eq, Structural)]
pub struct Cursors {
    pub default: Option<u32>,
    pub text: Option<u32>,
    pub pointer: Option<u32>,
    pub crosshair: Option<u32>,
    pub not_allowed: Option<u32>,
    pub row_resize: Option<u32>,
    pub col_resize: Option<u32>,
}

/// The cursor of the server to show.
pub open spec fn cursor_for(cursors: Cursors, cursor: Cursor) -> Option<u32> {
    match cursor {
        Cursor::Arrow => cursors.default,
        Cursor::IBeam => cursors.text,
        Cursor::Pointer => cursors.pointer,
        Cursor::Crosshair => cursors.crosshair,
        Cursor::OpenHand => None,
        Cursor::NotAllowed => cursors.not_allowed,
        Cursor::ResizeLeftRight => cursors.col_resize,
        Cursor::ResizeUpDown => cursors.row_resize,
        Cursor::Custom(id) => if id <= u32::MAX {
            Some(id as u32)
        } else {
            None
        },
    }
}

/// The cursor of the server to show. Without one, the cursor stays as it is. Custom cursors have
/// numbers of the server; one with another number is not of the server.
pub fn choose_cursor(cursors: &Cursors, cursor: &Cursor) -> (chosen: Option<u32>)
    ensures
        chosen == cursor_for(*cursors, *cursor),
{
    match cursor {
        Cursor::Arrow => cursors.default,
        Cursor::IBeam => cursors.text,
        Cursor::Pointer => cursors.pointer,
        Cursor::Crosshair => cursors.crosshair,
        Cursor::OpenHand => None,
        Cursor::NotAllowed => cursors.not_allowed,
        Cursor::ResizeLeftRight => cursors.col_resize,
        Cursor::ResizeUpDown => cursors.row_resize,
        Cursor::Custom(id) => if *id <= 0xffff_ffff {
            Some(*id as u32)
        } else {
            None
        },
    }
}

/// Something to do when there is nothing else to do.
#[derive(Clone, Copy, Debug, PartialEq, Eq, Structural)]
pub enum IdleKind {
    /// Run the callback that was stored under this number.
    Callback(u64),
    Token(IdleToken),
    Redraw,
}

/// Whether writing to the pipe that wakes the event loop has to be tried again.
pub fn wake_again(interrupted: bool, would_block: bool) -> (again: bool)
    ensures
        again == (interrupted || would_block),
{
    interrupted || would_block
}

/// What to do in an idle moment.
#[derive(Debug)]
pub struct IdleWork {
    /// Callbacks and tokens for the handler, oldest first.
    pub items: Vec<IdleKind>,
    /// Whether to redraw after that.
    pub redraw: bool,
}

/// The items that are not requests to redraw, in order.
pub open spec fn without_redraws(queue: Seq<IdleKind>) -> Seq<IdleKind>
    decreases queue.len(),
{
    if queue.len() == 0 {
        Seq::empty()
    } else if queue.last() == IdleKind::Redraw {
        without_redraws(queue.drop_last())
    } else {
        without_redraws(queue.drop_last()).push(queue.last())
    }
}

/// A timer that is under way. Times are in nanoseconds.
#[derive(Clone, Copy, Debug, PartialEq, Eq, Structural)]
pub struct Timer {
    pub deadline: u64,
    pub token: TimerToken,
}

/// Timers, earliest deadline first.
#[derive(Debug)]
pub struct TimerQueue {
    timers: Vec<Timer>,
}

/// No timer comes before one with an earlier deadline.
pub open spec fn earliest_first(timers: Seq<Timer>) -> bool {
    forall|i: int, j: int|
        0 <= i <= j < timers.len() ==> (#[trigger] timers[i]).deadline <= (
        #[trigger] timers[j]).deadline
}

impl View for TimerQueue {
    type V = Seq<Timer>;

    closed spec fn view(&self) -> Seq<Timer> {
        self.timers@
    }
}

impl TimerQueue {
    /// The timers are kept earliest deadline first.
    pub open spec fn wf(self) -> bool {
        earliest_first(self@)
    }

    pub fn new() -> (queue: TimerQueue)
        ensures
            queue.wf(),
            queue@.len() == 0,
    {
        TimerQueue { timers: Vec::new() }
    }

    /// Adds a timer.
    #[verifier::spinoff_prover]
    #[verifier::rlimit(40)]
    pub fn push(&mut self, timer: Timer)
        requires
            old(self).wf(),
        ensures
            final(self).wf(),
            final(self)@.to_multiset() == old(self)@.to_multiset().insert(timer),
            final(self)@.len() == old(self)@.len() + 1,
    {
        let ghost before = self.timers@;
        let mut i: usize = 0;
        while i < self.timers.len() && self.timers[i].deadline <= timer.deadline
            invariant
                self.timers@ == before,
                earliest_first(before),
                i <= before.len(),
                forall|j: int| 0 <= j < i ==> (#[trigger] before[j]).deadline <= timer.deadline,
            decreases before.len() - i,
        {
            i += 1;
        }
        self.timers.insert(i, timer);
        proof {
            before.to_multiset_ensures();
            assert(self.timers@ =~= before.insert(i as int, timer));
            before.insert_ensures(i as int, timer);
            vstd::seq_lib::to_multiset_insert(before, i as int, timer);
        }
    }

    /// The deadline of the timer that comes next.
    pub fn next_timeout(&self) -> (deadline: Option<u64>)
        requires
            self.wf(),
        ensures
            match deadline {
                None => self@.len() == 0,
                Some(deadline) => self@.len() > 0 && deadline == self@[0].deadline && forall|i: int|
                    0 <= i < self@.len() ==> deadline <= (#[trigger] self@[i]).deadline,
            },
    {
        if self.timers.len() == 0 {
            None
        } else {
            Some(self.timers[0].deadline)
        }
    }

    /// Takes the next timer whose deadline has come. Asked until none is left, this gives the
    /// timers that the handler is told of; timers that it adds meanwhile take part.
    pub fn pop_due(&mut self, now: u64) -> (token: Option<TimerToken>)
        requires
            old(self).wf(),
        ensures
            final(self).wf(),
            token is None ==> *final(self) == *old(self),
            popped(old(self)@, now, final(self)@, token),
    {
        if self.timers.len() == 0 || self.timers[0].deadline > now {
            return None;
        }
        let timer = self.timers.remove(0);
        assert(self.timers@ =~= old(self)@.drop_first());
        Some(timer.token)
    }
}

/// Timers come in the order of their deadlines: one that is taken later has no earlier deadline.
pub proof fn law_timers_come_in_order(timers: Seq<Timer>, later: int)
    requires
        earliest_first(timers),
        0 <= later < timers.len(),
    ensures
        timers[0].deadline <= timers[later].deadline,
        earliest_first(timers.drop_first()),
{
    assert forall|i: int, j: int| 0 <= i <= j < timers.drop_first().len() implies (
    #[trigger] timers.drop_first()[i]).deadline <= (
    #[trigger] timers.drop_first()[j]).deadline by {
        assert(timers.drop_first()[i] == timers[i + 1]);
        assert(timers.drop_first()[j] == timers[j + 1]);
    }
}

/// An X11 window.
pub struct Window {
    pub id: u32,
    /// The size, in pixels.
    pub width: u16,
    pub height: u16,
    /// We've told X11 to destroy this window, so don't so any more X requests with this window id.
    pub destroyed: bool,
    /// The areas that were invalidated since the last time we rendered.
    pub invalid: Vec<PixelRect>,
    pub timer_queue: TimerQueue,
    pub idle_queue: Vec<IdleKind>,
    pub active_text_field: Option<TextFieldToken>,
}

impl Window {
    pub fn new(id: u32, width: u16, height: u16) -> (window: Window)
        ensures
            window.id == id,
            window.width == width,
            window.height == height,
            !window.destroyed,
            window.invalid@.len() == 0,
            window.timer_queue.wf(),
            window.timer_queue@.len() == 0,
            window.idle_queue@.len() == 0,
            window.active_text_field is None,
    {
        Window {
            id,
            width,
            height,
            destroyed: false,
            invalid: Vec::new(),
            timer_queue: TimerQueue::new(),
            idle_queue: Vec::new(),
            active_text_field: None,
        }
    }

    /// Start the destruction of the window. Returns whether the server has to be told, which is so
    /// once.
    pub fn destroy(&mut self) -> (tell: bool)
        ensures
            tell == !old(self).destroyed,
            *final(self) == (Window { destroyed: true, ..*old(self) }),
    {
        let tell = !self.destroyed;
        self.destroyed = true;
        tell
    }

    /// The window has a size. Returns whether the handler has to be told of it: only if it is a new
    /// one, and then all of the window has to be repainted.
    pub fn handle_configure_notify(&mut self, width: u16, height: u16) -> (changed: bool)
        ensures
            old(self).reconfigured(width, height, *final(self), changed),
            final(self).id == old(self).id,
            final(self).destroyed == old(self).destroyed,
            final(self).timer_queue == old(self).timer_queue,
            final(self).idle_queue@ == old(self).idle_queue@,
            final(self).active_text_field == old(self).active_text_field,
    {
        if self.width == width && self.height == height {
            return false;
        }
        self.width = width;
        self.height = height;
        self.invalid.push(
            PixelRect { left: 0, top: 0, right: width as i32, bottom: height as i32 },
        );
        true
    }

    /// Part of the window became visible. When no more such events follow, a redraw is scheduled,
    /// and the event loop has to be woken.
    pub fn handle_expose(&mut self, area: PixelRect, following: u16) -> (wake: bool)
        ensures
            old(self).exposed(area, following, *final(self), wake),
            final(self).id == old(self).id,
            final(self).width == old(self).width,
            final(self).height == old(self).height,
            final(self).destroyed == old(self).destroyed,
            final(self).timer_queue == old(self).timer_queue,
            final(self).active_text_field == old(self).active_text_field,
    {
        self.invalid.push(area);
        if following == 0 {
            self.idle_queue.push(IdleKind::Redraw);
            true
        } else {
            false
        }
    }

    /// Schedules a redraw on the idle loop, which has to be woken.
    pub fn request_anim_frame(&mut self)
        ensures
            final(self).idle_queue@ == old(self).idle_queue@.push(IdleKind::Redraw),
            *final(self) == (Window { idle_queue: final(self).idle_queue, ..*old(self) }),
    {
        self.add_idle(IdleKind::Redraw);
    }

    /// Part of the window has to be repainted.
    pub fn invalidate_rect(&mut self, area: PixelRect)
        ensures
            final(self).invalid@ == old(self).invalid@.push(area),
            final(self).idle_queue@ == old(self).idle_queue@.push(IdleKind::Redraw),
            *final(self) == (Window {
                invalid: final(self).invalid,
                idle_queue: final(self).idle_queue,
                ..*old(self)
            }),
    {
        self.invalid.push(area);
        self.request_anim_frame();
    }

    /// All of the window has to be repainted.
    pub fn invalidate(&mut self)
        ensures
            final(self).invalid@ == old(self).invalid@.push(
                PixelRect {
                    left: 0,
                    top: 0,
                    right: old(self).width as i32,
                    bottom: old(self).height as i32,
                },
            ),
            final(self).idle_queue@ == old(self).idle_queue@.push(IdleKind::Redraw),
            *final(self) == (Window {
                invalid: final(self).invalid,
                idle_queue: final(self).idle_queue,
                ..*old(self)
            }),
    {
        let area = PixelRect {
            left: 0,
            top: 0,
            right: self.width as i32,
            bottom: self.height as i32,
        };
        self.invalidate_rect(area);
    }

    /// Asks for a timer.
    pub fn request_timer(&mut self, timer: Timer)
        requires
            old(self).timer_queue.wf(),
        ensures
            final(self).timer_queue.wf(),
            final(self).timer_queue@.to_multiset() == old(self).timer_queue@.to_multiset().insert(
                timer,
            ),
            *final(self) == (Window { timer_queue: final(self).timer_queue, ..*old(self) }),
    {
        self.timer_queue.push(timer);
    }

    /// Where a key goes.
    pub fn handle_key_event(&self, state: KeyState) -> (target: KeyTarget)
        ensures
            target == match state {
                KeyState::Down => KeyTarget::TextField(self.active_text_field),
                KeyState::Up => KeyTarget::KeyUp,
            },
    {
        match state {
            KeyState::Down => KeyTarget::TextField(self.active_text_field),
            KeyState::Up => KeyTarget::KeyUp,
        }
    }

    /// Takes the areas to paint, after the handler has prepared. A window that was destroyed
    /// meanwhile is not painted.
    pub fn render(&mut self) -> (areas: Option<Vec<PixelRect>>)
        ensures
            old(self).destroyed ==> *final(self) == *old(self),
            old(self).rendered(*final(self), areas),
            final(self).id == old(self).id,
            final(self).width == old(self).width,
            final(self).height == old(self).height,
            final(self).destroyed == old(self).destroyed,
            final(self).timer_queue == old(self).timer_queue,
            final(self).idle_queue@ == old(self).idle_queue@,
            final(self).active_text_field == old(self).active_text_field,
    {
        if self.destroyed {
            return None;
        }
        let mut areas: Vec<PixelRect> = Vec::new();
        std::mem::swap(&mut areas, &mut self.invalid);
        Some(areas)
    }

    /// Adds something to do when idle. The event loop has to be woken for it.
    pub fn add_idle(&mut self, kind: IdleKind)
        ensures
            final(self).idle_queue@ == old(self).idle_queue@.push(kind),
            *final(self) == (Window { idle_queue: final(self).idle_queue, ..*old(self) }),
    {
        self.idle_queue.push(kind);
    }

    /// Takes everything that waits for an idle moment. However often a redraw was asked for, it
    /// happens once, after everything else.
    pub fn run_idle(&mut self) -> (work: IdleWork)
        ensures
            work.items@ == without_redraws(old(self).idle_queue@),
            work.redraw == old(self).idle_queue@.contains(IdleKind::Redraw),
            final(self).idle_queue@.len() == 0,
            *final(self) == (Window { idle_queue: final(self).idle_queue, ..*old(self) }),
    {
        let mut queue: Vec<IdleKind> = Vec::new();
        std::mem::swap(&mut queue, &mut self.idle_queue);
        let mut items: Vec<IdleKind> = Vec::new();
        let mut redraw = false;
        let mut i: usize = 0;
        while i < queue.len()
            invariant
                i <= queue@.len(),
                items@ == without_redraws(queue@.take(i as int)),
                redraw == exists|j: int| 0 <= j < i && queue@[j] == IdleKind::Redraw,
            decreases queue.len() - i,
        {
            proof {
                assert(queue@.take(i as int + 1).drop_last() =~= queue@.take(i as int));
            }
            let kind = queue[i];
            if kind == IdleKind::Redraw {
                redraw = true;
                assert(queue@[i as int] == IdleKind::Redraw);
            } else {
                items.push(kind);
            }
            i += 1;
        }
        assert(queue@.take(i as int) =~= queue@);
        IdleWork { items, redraw }
    }

    /// A text field is gone. If it was the focused one, none is focused any more.
    pub fn remove_text_field(&mut self, token: TextFieldToken)
        ensures
            *final(self) == (Window {
                active_text_field: crate::text::focused_without(
                    old(self).active_text_field,
                    token,
                ),
                ..*old(self)
            }),
    {
        if self.active_text_field == Some(token) {
            self.active_text_field = None;
        }
    }

    /// Focuses a text field, or none.
    pub fn set_focused_text_field(&mut self, active_field: Option<TextFieldToken>)
        ensures
            *final(self) == (Window { active_text_field: active_field, ..*old(self) }),
    {
        self.active_text_field = active_field;
    }
}

/// A window starts iconic exactly if it is to be minimized. A window that no state was asked for
/// starts in none, and every other state is a normal start.
pub proof fn law_only_minimized_windows_start_iconic(
    builder: WindowBuilder,
    screen: Screen,
    placement: Placement,
)
    ensures
        ({
            let state = builder.plan(screen, placement).initial_state;
            &&& state == Some(InitialState::Iconic) <==> builder.state == Some(
                WindowState::Minimized,
            )
            &&& state is None <==> builder.state is None
            &&& builder.state is Some && builder.state != Some(WindowState::Minimized) ==> state
                == Some(InitialState::Normal)
        }),
{
}

/// A window that belongs to another one is owned by it and left alone by the window manager; one
/// that belongs to none is not. Each level has a type of its own.
pub proof fn law_owned_windows_are_left_alone(
    builder: WindowBuilder,
    screen: Screen,
    placement: Placement,
    owner: WindowId,
)
    ensures
        ({
            let plan = builder.plan(screen, placement);
            &&& plan.owner is Some == plan.override_redirect
            &&& plan.owner is None <==> builder.level is AppWindow
            &&& plan.owner == Some(owner) <==> builder.level == WindowLevel::Tooltip(owner)
                || builder.level == WindowLevel::DropDown(owner) || builder.level
                == WindowLevel::Modal(owner)
            &&& plan.window_type == WindowType::Normal <==> builder.level is AppWindow
            &&& plan.window_type == WindowType::Tooltip <==> builder.level is Tooltip
            &&& plan.window_type == WindowType::Dialog <==> builder.level is Modal
            &&& plan.window_type == WindowType::DropdownMenu <==> builder.level is DropDown
        }),
{
}

/// Only a window that wants to be transparent, on a screen that can, gets a visual of its own; it
/// then has all the bits of color and alpha, and a border color to go with its colormap. Every other
/// window is created like the root window.
pub proof fn law_transparency_needs_a_visual(
    builder: WindowBuilder,
    screen: Screen,
    placement: Placement,
)
    ensures
        ({
            let plan = builder.plan(screen, placement);
            let own = builder.transparent && screen.argb_visual is Some;
            &&& plan.border_pixel is Some <==> own
            &&& own ==> plan.depth == 32 && Some(plan.visual) == screen.argb_visual
                && plan.border_pixel == Some(screen.white_pixel)
            &&& !own ==> plan.depth == screen.root_depth && plan.visual == screen.root_visual
            &&& plan.parent == screen.root
        }),
{
}

/// A window is created where and as large as it was worked out to be, and is moved only if it was
/// given a position; then it is moved where it was worked out to go.
pub proof fn law_windows_are_placed_as_worked_out(
    builder: WindowBuilder,
    screen: Screen,
    placement: Placement,
)
    ensures
        ({
            let plan = builder.plan(screen, placement);
            &&& plan.x == placement.x && plan.y == placement.y
            &&& plan.width == placement.width && plan.height == placement.height
            &&& plan.move_to is Some <==> builder.position is Some
            &&& plan.move_to is Some ==> plan.move_to == Some(placement.moved)
            &&& plan.event_mask == WINDOW_EVENTS
        }),
{
}

/// A window that can be resized has no largest size, and only its own smallest size; one that
/// cannot has room for its own size alone.
pub proof fn law_fixed_windows_have_one_size(
    builder: WindowBuilder,
    screen: Screen,
    placement: Placement,
    size: SizeLimit,
)
    ensures
        ({
            let hints = builder.plan(screen, placement).hints;
            let allowed = {
                &&& hints.min_size matches Some(min) ==> min.width <= size.width && min.height
                    <= size.height
                &&& hints.max_size matches Some(max) ==> size.width <= max.width && size.height
                    <= max.height
            };
            &&& builder.resizable ==> (allowed <==> placement.min_size.width <= size.width
                && placement.min_size.height <= size.height)
            &&& !builder.resizable ==> (allowed <==> size == placement.size)
            &&& hints == hints_for(builder.resizable, placement.size, placement.min_size)
        }),
{
}

/// The class of a window can be taken apart at its zeros: it holds the name of the program, as it
/// is, and then the same name, but for a first letter in upper case.
pub proof fn law_class_holds_the_name_twice(name: Seq<u8>)
    requires
        name.len() > 0,
    ensures
        ({
            let class = class_of(name);
            let count = name.len() as int;
            &&& class.len() == 2 * name.len() + 2
            &&& class.take(name.len() as int) == name
            &&& class[name.len() as int] == 0 && class.last() == 0
            &&& class.subrange(count + 2, 2 * count + 1) == name.skip(1)
            &&& ({
                let first = class[count + 1];
                let is_lower = 'a' as u8 <= name[0] <= 'z' as u8;
                &&& is_lower ==> name[0] - first == 'a' as u8 - 'A' as u8
                &&& !is_lower ==> first == name[0]
            })
        }),
{
    let class = class_of(name);
    let count = name.len() as int;
    assert(class.take(name.len() as int) =~= name);
    assert(class.subrange(count + 2, 2 * count + 1) =~= name.skip(1));
}

/// The environment says where the resolution comes from whenever it says anything; the resources
/// count only without it, and what is no number leaves the default.
pub proof fn law_environment_counts_first(environment: Lookup, resources: Lookup)
    ensures
        dpi_source_for(environment, resources) == DpiSource::Environment <==> environment
            == Lookup::Number,
        dpi_source_for(environment, resources) == DpiSource::Resources <==> environment
            == Lookup::Absent && resources == Lookup::Number,
{
}

/// The server counts the left button, the middle one and then the right one, and the buttons 4 to 7
/// are none of a mouse but of its wheel.
pub proof fn law_buttons_are_counted_from_the_left(detail: u8)
    ensures
        button_for(detail) == MouseButton::Primary <==> detail == 1,
        button_for(detail) == MouseButton::Auxiliary <==> detail == 2,
        button_for(detail) == MouseButton::Secondary <==> detail == 3,
        button_for(detail) == MouseButton::X1 <==> detail == 8,
        button_for(detail) == MouseButton::X2 <==> detail == 9,
        forall|shift: bool| #[trigger]
            wheel_movement(detail, shift) is Some <==> 4 <= detail <= 7,
        4 <= detail <= 7 ==> button_for(detail) == MouseButton::NoButton,
{
}

/// A button that is pressed is held by the bit that the next event has for it: the masks of the
/// first three buttons stand for the buttons with those numbers, and nothing else is held.
pub proof fn law_masks_stand_for_their_buttons(state: u32, button: MouseButton)
    ensures
        held_buttons(state).contains(button_for(1)) <==> state & 0x100 != 0,
        held_buttons(state).contains(button_for(2)) <==> state & 0x200 != 0,
        held_buttons(state).contains(button_for(3)) <==> state & 0x400 != 0,
        held_buttons(state).contains(button) ==> button == button_for(1) || button == button_for(2)
            || button == button_for(3),
        !held_buttons(state).contains(MouseButton::NoButton),
{
}

/// The wheel turns the other way with the other button of its pair, by as much. Shift turns the
/// vertical wheel sideways and keeps its direction, and does nothing to the horizontal one.
pub proof fn law_wheel_buttons_come_in_pairs(up: u8, shift: bool)
    requires
        up == 4 || up == 6,
    ensures
        ({
            let back = wheel_movement(up, shift)->0;
            let forth = wheel_movement((up + 1) as u8, shift)->0;
            &&& back.x + forth.x == 0 && back.y + forth.y == 0
            &&& back.x + back.y == -120
            &&& back.x == 0 || back.y == 0
            &&& back.y != 0 <==> up == 4 && !shift
        }),
{
}

/// Each modifier is read from the bit that the server has for it, and from no other.
pub proof fn law_modifiers_are_read_from_their_bits(state: u32)
    ensures
        held_mods(state).has(Modifiers::SHIFT) <==> state & 0x01 != 0,
        held_mods(state).has(Modifiers::CAPS_LOCK) <==> state & 0x02 != 0,
        held_mods(state).has(Modifiers::CONTROL) <==> state & 0x04 != 0,
        held_mods(state).has(Modifiers::ALT) <==> state & 0x08 != 0,
        held_mods(state).has(Modifiers::NUM_LOCK) <==> state & 0x10 != 0,
        held_mods(state).has(Modifiers::META) <==> state & 0x40 != 0,
        !held_mods(state).has(Modifiers::SUPER),
        !held_mods(state).has(Modifiers::SCROLL_LOCK),
{
    let s = flag_if(state, MOD_SHIFT, Modifiers::SHIFT);
    let c = flag_if(state, MOD_CONTROL, Modifiers::CONTROL);
    let a = flag_if(state, MOD_M1, Modifiers::ALT);
    let n = flag_if(state, MOD_M2, Modifiers::NUM_LOCK);
    let m = flag_if(state, MOD_M4, Modifiers::META);
    let l = flag_if(state, MOD_LOCK, Modifiers::CAPS_LOCK);
    assert({
        let all = s | c | a | n | m | l;
        &&& (all & 0x200 != 0 <==> s == 0x200)
        &&& (all & 0x8 != 0 <==> c == 0x8)
        &&& (all & 0x1 != 0 <==> a == 0x1)
        &&& (all & 0x80 != 0 <==> n == 0x80)
        &&& (all & 0x40 != 0 <==> m == 0x40)
        &&& (all & 0x4 != 0 <==> l == 0x4)
        &&& all & 0x2000 == 0
        &&& all & 0x100 == 0
    }) by (bit_vector)
        requires
            s == 0x200 || s == 0,
            c == 0x8 || c == 0,
            a == 0x1 || a == 0,
            n == 0x80 || n == 0,
            m == 0x40 || m == 0,
            l == 0x4 || l == 0,
    ;
}

/// Mouse events report the pointer where it is, and the modifiers that are held, and never say that
/// they focused the window.
pub proof fn law_events_report_the_pointer(event: MouseEvent, input: PointerInput)
    requires
        reports(event, input),
    ensures
        event.pos.x == input.x && event.pos.y == input.y,
        event.mods.has(Modifiers::SHIFT) <==> input.state & 0x01 != 0,
        event.mods.has(Modifiers::CONTROL) <==> input.state & 0x04 != 0,
        !event.focus,
{
    law_modifiers_are_read_from_their_bits(input.state);
}

/// Each cursor is shown as the one of the server that looks like it; there is none for an open hand,
/// and custom cursors are of the server already.
pub proof fn law_cursors_look_alike(cursors: Cursors, id: u64)
    ensures
        cursor_for(cursors, Cursor::Arrow) == cursors.default,
        cursor_for(cursors, Cursor::IBeam) == cursors.text,
        cursor_for(cursors, Cursor::Pointer) == cursors.pointer,
        cursor_for(cursors, Cursor::Crosshair) == cursors.crosshair,
        cursor_for(cursors, Cursor::NotAllowed) == cursors.not_allowed,
        cursor_for(cursors, Cursor::ResizeLeftRight) == cursors.col_resize,
        cursor_for(cursors, Cursor::ResizeUpDown) == cursors.row_resize,
        cursor_for(cursors, Cursor::OpenHand) is None,
        cursor_for(cursors, Cursor::Custom(id)) is Some <==> id < 0x1_0000_0000,
        cursor_for(cursors, Cursor::Custom(id)) matches Some(chosen) ==> chosen == id,
{
}

/// Everything that waits for an idle moment is done in order, but for the redraws, which are left
/// out: what is left is neither more nor less, and comes in the same order.
pub proof fn law_idle_work_keeps_its_order(queue: Seq<IdleKind>, more: Seq<IdleKind>, kind: IdleKind)
    ensures
        without_redraws(queue + more) == without_redraws(queue) + without_redraws(more),
        !without_redraws(queue).contains(IdleKind::Redraw),
        kind != IdleKind::Redraw ==> without_redraws(queue).contains(kind) == queue.contains(kind),
        without_redraws(seq![kind]) == if kind == IdleKind::Redraw {
            Seq::empty()
        } else {
            seq![kind]
        },
    decreases queue.len() + more.len(),
{
    reveal_with_fuel(without_redraws, 2);
    assert(seq![kind].drop_last() =~= Seq::<IdleKind>::empty());
    assert(Seq::<IdleKind>::empty().push(kind) =~= seq![kind]);
    if more.len() > 0 {
        law_idle_work_keeps_its_order(queue, more.drop_last(), kind);
        assert((queue + more).drop_last() =~= queue + more.drop_last());
        assert(without_redraws(queue + more) =~= without_redraws(queue) + without_redraws(more));
    } else {
        assert(queue + more =~= queue);
        assert(without_redraws(queue) + without_redraws(more) =~= without_redraws(queue));
    }
    if queue.len() > 0 {
        let rest = queue.drop_last();
        law_idle_work_keeps_its_order(rest, Seq::empty(), kind);
        assert(queue =~= rest.push(queue.last()));
        let before = without_redraws(rest);
        if queue.last() == IdleKind::Redraw {
            if kind != IdleKind::Redraw && queue.contains(kind) {
                let i = choose|i: int| 0 <= i < queue.len() && queue[i] == kind;
                assert(rest[i] == kind);
            }
            if rest.contains(kind) {
                let i = choose|i: int| 0 <= i < rest.len() && rest[i] == kind;
                assert(queue[i] == kind);
            }
        } else {
            let all = before.push(queue.last());
            assert(all.last() == queue.last());
            if queue.contains(kind) {
                let i = choose|i: int| 0 <= i < queue.len() && queue[i] == kind;
                if i < rest.len() {
                    assert(rest[i] == kind);
                    if kind != IdleKind::Redraw {
                        let j = choose|j: int| 0 <= j < before.len() && before[j] == kind;
                        assert(all[j] == kind);
                    }
                } else {
                    assert(all[before.len() as int] == kind);
                }
            }
            if all.contains(kind) {
                let i = choose|i: int| 0 <= i < all.len() && all[i] == kind;
                if i < before.len() {
                    assert(before[i] == kind);
                    assert(before.contains(kind));
                    if kind != IdleKind::Redraw {
                        let j = choose|j: int| 0 <= j < rest.len() && rest[j] == kind;
                        assert(queue[j] == kind);
                    }
                } else {
                    assert(queue[rest.len() as int] == kind);
                }
            }
        }
    }
}

/// What a press of a wheel button is reported as.
pub open spec fn wheel_reported(
    input: PointerInput,
    result: Result<MouseEvent, UnexpectedWheelButton>,
) -> bool {
    match result {
        Ok(event) => {
            let shift = held_mods(input.state).has(Modifiers::SHIFT);
            &&& reports(event, input)
            &&& Some(event.wheel_delta) == wheel_movement(input.detail, shift)
            &&& event.buttons@ == held_buttons(input.state)
            &&& event.count == 0
            &&& event.button == MouseButton::NoButton
        },
        Err(error) => error == UnexpectedWheelButton(input.detail) && !(4 <= input.detail <= 7),
    }
}

/// A wheel button reports a movement along one axis, with the buttons that are held and no click.
/// Other buttons are refused by their number.
pub proof fn law_wheel_buttons_report_movements(
    input: PointerInput,
    result: Result<MouseEvent, UnexpectedWheelButton>,
)
    requires
        wheel_reported(input, result),
    ensures
        (result is Ok) == (4 <= input.detail <= 7),
        result matches Ok(event) ==> event.pos.x == input.x && event.pos.y == input.y && event.count
            == 0 && event.button is NoButton && (event.wheel_delta.x == 0) != (event.wheel_delta.y
            == 0) && (event.wheel_delta.x + event.wheel_delta.y > 0) == (input.detail % 2 == 1)
            && event.buttons@ == held_buttons(input.state),
        result matches Err(error) ==> error.0 == input.detail,
{
}

/// What is taken from the timers at a moment, and what is left of them.
pub open spec fn popped(
    before: Seq<Timer>,
    now: u64,
    after: Seq<Timer>,
    token: Option<TimerToken>,
) -> bool {
    match token {
        None => after == before && forall|i: int|
            0 <= i < before.len() ==> (#[trigger] before[i]).deadline > now,
        Some(token) => {
            &&& before.len() > 0
            &&& before[0].deadline <= now
            &&& token == before[0].token
            &&& after == before.drop_first()
        },
    }
}

/// A timer fires exactly if its deadline has come, the earliest first, and only once: it is not
/// among those that are left, which all fire no earlier.
pub proof fn law_due_timers_fire(
    before: Seq<Timer>,
    now: u64,
    after: Seq<Timer>,
    token: Option<TimerToken>,
    i: int,
)
    requires
        earliest_first(before),
        popped(before, now, after, token),
        0 <= i < before.len(),
    ensures
        before[i].deadline <= now ==> token is Some,
        (token is Some) == (before[0].deadline <= now),
        token is Some ==> token == Some(before[0].token) && after.len() == before.len() - 1
            && before[0].deadline <= before[i].deadline,
        token is Some && i > 0 ==> after[i - 1] == before[i],
        token is None ==> after == before,
{
}

impl Window {
    /// The window after the server told its size, and whether that changed.
    pub open spec fn reconfigured(self, width: u16, height: u16, after: Window, changed: bool) -> bool {
        &&& changed == (self.width != width || self.height != height)
        &&& after.width == width
        &&& after.height == height
        &&& after.invalid@ == if changed {
            self.invalid@.push(
                PixelRect { left: 0, top: 0, right: width as i32, bottom: height as i32 },
            )
        } else {
            self.invalid@
        }
    }

    /// A window has the size that it was told last, and is painted whole at that size if it had
    /// another before. Being told the same size again changes nothing.
    pub proof fn law_new_sizes_are_painted(
        self,
        width: u16,
        height: u16,
        after: Window,
        changed: bool,
        again: Window,
        changed_again: bool,
    )
        requires
            self.reconfigured(width, height, after, changed),
            after.reconfigured(width, height, again, changed_again),
        ensures
            !changed_again && again.invalid@ == after.invalid@,
            self.width == width && self.height == height ==> !changed && after.invalid@
                == self.invalid@,
            self.width != width || self.height != height ==> changed && after.invalid@.len()
                == self.invalid@.len() + 1 && after.invalid@.last().left == 0
                && after.invalid@.last().top == 0 && after.invalid@.last().right == after.width
                && after.invalid@.last().bottom == after.height,
            self.invalid@.is_prefix_of(after.invalid@),
    {
    }

    /// The window after an area of it was exposed, and whether to wake the loop up.
    pub open spec fn exposed(self, area: PixelRect, following: u16, after: Window, wake: bool) -> bool {
        &&& wake == (following == 0)
        &&& after.invalid@ == self.invalid@.push(area)
        &&& after.idle_queue@ == if following == 0 {
            self.idle_queue@.push(IdleKind::Redraw)
        } else {
            self.idle_queue@
        }
    }

    /// Every area that is exposed is to be painted. The window is redrawn once, after the last of
    /// them.
    pub proof fn law_exposed_areas_are_redrawn_together(
        self,
        first: PixelRect,
        second: PixelRect,
        following: u16,
        between: Window,
        after: Window,
        wake: bool,
        wake_later: bool,
    )
        requires
            following > 0,
            self.exposed(first, following, between, wake),
            between.exposed(second, (following - 1) as u16, after, wake_later),
        ensures
            !wake && between.idle_queue@ == self.idle_queue@,
            wake_later == (following == 1),
            after.invalid@ == self.invalid@.push(first).push(second),
            wake_later ==> after.idle_queue@ == self.idle_queue@.push(IdleKind::Redraw),
    {
    }

    /// The window after it was rendered, and the areas that were painted. One that is destroyed is
    /// not.
    pub open spec fn rendered(self, after: Window, areas: Option<Vec<PixelRect>>) -> bool {
        &&& self.destroyed ==> areas is None
        &&& !self.destroyed ==> areas is Some && areas->0@ == self.invalid@ && after.invalid@.len()
            == 0
    }

    /// What is to be painted is painted once: rendering again paints nothing. A window that is
    /// destroyed is not painted.
    pub proof fn law_areas_are_painted_once(
        self,
        after: Window,
        areas: Option<Vec<PixelRect>>,
        later: Window,
        later_areas: Option<Vec<PixelRect>>,
    )
        requires
            self.rendered(after, areas),
            after.destroyed == self.destroyed,
            after.rendered(later, later_areas),
        ensures
            (areas is Some) == !self.destroyed,
            areas is Some ==> areas->0@ == self.invalid@ && later_areas is Some
                && later_areas->0@.len() == 0,
    {
    }
}

/// A visual, as it is laid out for other libraries.
pub open spec fn laid_out(visual: Visualtype) -> xcb_visualtype_t {
    <xcb_visualtype_t as vstd::std_specs::convert::FromSpec<Visualtype>>::from_spec(visual)
}

/// A visual says the same however it is laid out.
pub proof fn law_visuals_keep_their_fields(visual: Visualtype)
    ensures
        laid_out(visual).visual_id == visual.visual_id,
        laid_out(visual).class == visual.class,
        laid_out(visual).bits_per_rgb_value == visual.bits_per_rgb_value,
        laid_out(visual).colormap_entries == visual.colormap_entries,
        laid_out(visual).red_mask == visual.red_mask,
        laid_out(visual).green_mask == visual.green_mask,
        laid_out(visual).blue_mask == visual.blue_mask,
        forall|i: int| 0 <= i < 4 ==> #[trigger] laid_out(visual).pad0@[i] == 0,
{
}

} // verus!
