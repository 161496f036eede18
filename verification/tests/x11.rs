//! The X11 backend.

use glazier::geometry::{DpPoint, DpSize};
use glazier::keyboard::{KeyState, Modifiers};
use glazier::mouse::{Cursor, MouseButton, PixelPoint, WheelDelta};
use glazier::text::TextFieldToken;
use glazier::util::Counter;
use glazier::window::{IdleToken, TimerToken, WindowDescription, WindowLevel, WindowState};
use glazier::windows::style::PixelRect;
use glazier::x11::pointer::{
    is_supported_version, DeviceClass, DeviceDescription, DeviceInfo, DeviceKind, DeviceType,
    Fp3232, PenLabels, PenValuators, PointersState, ValuatorInfo,
};
use glazier::x11::window::{
    choose_cursor, dpi_source, handle_button_press, handle_button_release, handle_client_message,
    handle_motion_notify, handle_wheel, key_mods, mouse_button, mouse_buttons, size_hints,
    wake_again, wm_class, xcb_visualtype_t, Cursors, DpiSource, IdleKind, InitialState,
    InvalidScreen, KeyTarget, Lookup, Placement, PointerInput, Screen, SizeHints, SizeLimit, Timer,
    TimerQueue, UnexpectedWheelButton, Visualtype, Window, WindowBuilder, WindowType, BUTTON_M1,
    BUTTON_M2, BUTTON_M3, MOD_CONTROL, MOD_LOCK, MOD_M1, MOD_M2, MOD_M4, MOD_SHIFT, WINDOW_EVENTS,
};
use x11rb::protocol::xproto;

#[test]
fn masks_are_those_of_the_protocol() {
    assert_eq!(MOD_SHIFT, u32::from(u16::from(xproto::ModMask::SHIFT)));
    assert_eq!(MOD_LOCK, u32::from(u16::from(xproto::ModMask::LOCK)));
    assert_eq!(MOD_CONTROL, u32::from(u16::from(xproto::ModMask::CONTROL)));
    assert_eq!(MOD_M1, u32::from(u16::from(xproto::ModMask::M1)));
    assert_eq!(MOD_M2, u32::from(u16::from(xproto::ModMask::M2)));
    assert_eq!(MOD_M4, u32::from(u16::from(xproto::ModMask::M4)));
    assert_eq!(BUTTON_M1, u32::from(u16::from(xproto::ButtonMask::M1)));
    assert_eq!(BUTTON_M2, u32::from(u16::from(xproto::ButtonMask::M2)));
    assert_eq!(BUTTON_M3, u32::from(u16::from(xproto::ButtonMask::M3)));
    let events = xproto::EventMask::EXPOSURE
        | xproto::EventMask::STRUCTURE_NOTIFY
        | xproto::EventMask::KEY_PRESS
        | xproto::EventMask::KEY_RELEASE
        | xproto::EventMask::BUTTON_PRESS
        | xproto::EventMask::BUTTON_RELEASE
        | xproto::EventMask::POINTER_MOTION
        | xproto::EventMask::FOCUS_CHANGE
        | xproto::EventMask::LEAVE_WINDOW;
    assert_eq!(WINDOW_EVENTS, u32::from(events));
}

#[test]
fn buttons_and_modifiers_are_read() {
    let state = BUTTON_M1 | BUTTON_M3 | MOD_SHIFT | MOD_M4;
    let buttons = mouse_buttons(state);
    assert!(buttons.has_primary() && buttons.has_secondary() && !buttons.has_auxiliary());
    assert_eq!(key_mods(state).bits, Modifiers::SHIFT | Modifiers::META);
    assert_eq!(key_mods(MOD_M1 | MOD_M2 | MOD_LOCK).bits, 0x85);
    assert_eq!(mouse_button(2), MouseButton::Auxiliary);
    assert_eq!(mouse_button(3), MouseButton::Secondary);
    assert_eq!(mouse_button(5), MouseButton::NoButton);
    assert_eq!(mouse_button(9), MouseButton::X2);
    assert_eq!(mouse_button(200), MouseButton::NoButton);
}

fn input(detail: u8, state: u32) -> PointerInput {
    PointerInput { x: -3, y: 9, detail, state }
}

#[test]
fn pressed_buttons_are_held() {
    let pressed = handle_button_press(&input(1, 0));
    assert!(pressed.buttons.has_primary());
    assert_eq!((pressed.count, pressed.button), (1, MouseButton::Primary));
    assert_eq!(pressed.pos, PixelPoint { x: -3, y: 9 });
    let released = handle_button_release(&input(1, BUTTON_M1));
    assert!(released.buttons.is_empty());
    assert_eq!(released.count, 0);
    let moved = handle_motion_notify(&input(0, BUTTON_M2 | MOD_CONTROL));
    assert!(moved.buttons.has_auxiliary());
    assert_eq!(moved.mods.bits, Modifiers::CONTROL);
}

#[test]
fn wheels() {
    let delta = |detail, state| handle_wheel(&input(detail, state)).unwrap().wheel_delta;
    assert_eq!(delta(4, 0), WheelDelta { x: 0, y: -120 });
    assert_eq!(delta(4, MOD_SHIFT), WheelDelta { x: -120, y: 0 });
    assert_eq!(delta(5, 0), WheelDelta { x: 0, y: 120 });
    assert_eq!(delta(5, MOD_SHIFT), WheelDelta { x: 120, y: 0 });
    assert_eq!(delta(6, MOD_SHIFT), WheelDelta { x: -120, y: 0 });
    assert_eq!(delta(7, 0), WheelDelta { x: 120, y: 0 });
    assert_eq!(handle_wheel(&input(1, 0)).unwrap_err(), UnexpectedWheelButton(1));
}

#[test]
fn close_requests() {
    assert!(handle_client_message(7, 32, 8, 7, 8));
    assert!(!handle_client_message(7, 16, 8, 7, 8));
    assert!(!handle_client_message(6, 32, 8, 7, 8));
    assert!(!handle_client_message(7, 32, 9, 7, 8));
}

#[test]
fn classes_of_windows() {
    assert_eq!(wm_class(b"app"), b"app\0App\0".to_vec());
    assert_eq!(wm_class(b"App"), b"App\0App\0".to_vec());
    assert_eq!(wm_class(b"3d"), b"3d\x003d\0".to_vec());
}

#[test]
fn resolutions() {
    assert_eq!(dpi_source(Lookup::Number, Lookup::Number), DpiSource::Environment);
    assert_eq!(dpi_source(Lookup::Unparsable, Lookup::Number), DpiSource::Default);
    assert_eq!(dpi_source(Lookup::Absent, Lookup::Number), DpiSource::Resources);
    assert_eq!(dpi_source(Lookup::Absent, Lookup::Absent), DpiSource::Default);
}

fn placement() -> Placement {
    Placement {
        x: 1,
        y: 2,
        width: 30,
        height: 40,
        size: SizeLimit { width: 30, height: 40 },
        min_size: SizeLimit { width: 3, height: 4 },
        moved: PixelPoint { x: 2, y: 3 },
    }
}

#[test]
fn windows_without_extent_become_a_point() {
    let mut builder = WindowBuilder::new();
    assert_eq!(f64::from_bits(builder.size.width), 500.0);
    assert_eq!(f64::from_bits(builder.size.height), 400.0);
    builder.set_size(DpSize { width: (-0.0f64).to_bits(), height: 5.0f64.to_bits() });
    assert_eq!(f64::from_bits(builder.size.width), 1.0);
    assert_eq!(f64::from_bits(builder.size.height), 1.0);
    builder.set_size(DpSize { width: 7.0f64.to_bits(), height: 5.0f64.to_bits() });
    assert_eq!(f64::from_bits(builder.size.width), 7.0);
}

#[test]
fn creating_x11_windows() {
    let screens = vec![Screen {
        root: 1,
        root_depth: 24,
        white_pixel: 0xffffff,
        root_visual: 33,
        argb_visual: Some(44),
    }];
    let mut builder = WindowBuilder::new();
    let plan = builder.build(&screens, 0, placement()).unwrap();
    assert_eq!((plan.depth, plan.visual, plan.border_pixel), (24, 33, None));
    assert_eq!(plan.window_type, WindowType::Normal);
    assert!(!plan.override_redirect);
    assert_eq!(plan.move_to, None);
    assert_eq!(builder.build(&screens, 1, placement()).unwrap_err(), InvalidScreen(1));
    builder.set_transparent(true);
    builder.set_position(DpPoint { x: 1.5f64.to_bits(), y: 2.5f64.to_bits() });
    builder.set_window_state(WindowState::Minimized);
    let owner = WindowDescription::default().assign_id(&mut Counter::new());
    builder.set_level(WindowLevel::DropDown(owner));
    builder.resizable(false);
    let plan = builder.build(&screens, 0, placement()).unwrap();
    assert_eq!((plan.depth, plan.visual, plan.border_pixel), (32, 44, Some(0xffffff)));
    assert_eq!(plan.window_type, WindowType::DropdownMenu);
    assert_eq!(plan.initial_state, Some(InitialState::Iconic));
    assert!(plan.override_redirect);
    assert_eq!(plan.move_to, Some(PixelPoint { x: 2, y: 3 }));
    assert_eq!(plan.hints, size_hints(false, placement().size, placement().min_size));
    assert_eq!(
        size_hints(true, placement().size, placement().min_size),
        SizeHints { min_size: Some(placement().min_size), max_size: None }
    );
}

#[test]
fn visuals() {
    let visual = xcb_visualtype_t::from(Visualtype {
        visual_id: 1,
        class: 4,
        bits_per_rgb_value: 8,
        colormap_entries: 256,
        red_mask: 0xff0000,
        green_mask: 0xff00,
        blue_mask: 0xff,
    });
    assert_eq!((visual.visual_id, visual.class, visual.red_mask), (1, 4, 0xff0000));
    assert_eq!(visual.pad0, [0, 0, 0, 0]);
}

#[test]
fn cursors_of_the_server() {
    let cursors = Cursors {
        default: Some(1),
        text: Some(2),
        pointer: None,
        crosshair: None,
        not_allowed: None,
        row_resize: Some(6),
        col_resize: Some(7),
    };
    assert_eq!(choose_cursor(&cursors, &Cursor::IBeam), Some(2));
    assert_eq!(choose_cursor(&cursors, &Cursor::OpenHand), None);
    assert_eq!(choose_cursor(&cursors, &Cursor::ResizeLeftRight), Some(7));
    assert_eq!(choose_cursor(&cursors, &Cursor::Custom(12)), Some(12));
    assert_eq!(choose_cursor(&cursors, &Cursor::Custom(0x1_0000_0000)), None);
}

#[test]
fn timers_come_in_the_order_of_their_deadlines() {
    let mut queue = TimerQueue::new();
    for (deadline, token) in [(50, 1), (20, 2), (90, 3), (20, 4)] {
        queue.push(Timer { deadline, token: TimerToken(token) });
    }
    assert_eq!(queue.next_timeout(), Some(20));
    let mut tokens = Vec::new();
    while let Some(token) = queue.pop_due(60) {
        tokens.push(token.0);
    }
    assert_eq!(tokens, vec![2, 4, 1]);
    assert_eq!(queue.next_timeout(), Some(90));
    assert_eq!(queue.pop_due(89), None);
    assert_eq!(queue.pop_due(90), Some(TimerToken(3)));
    assert_eq!(queue.next_timeout(), None);
}

#[test]
fn windows_redraw_in_idle_moments() {
    let mut window = Window::new(9, 100, 80);
    let area = PixelRect { left: 1, top: 1, right: 5, bottom: 5 };
    assert!(!window.handle_expose(area, 1));
    assert!(window.handle_expose(area, 0));
    window.add_idle(IdleKind::Token(IdleToken::new(3)));
    window.invalidate();
    let work = window.run_idle();
    assert_eq!(work.items, vec![IdleKind::Token(IdleToken::new(3))]);
    assert!(work.redraw);
    assert!(!window.run_idle().redraw);
    let areas = window.render().unwrap();
    assert_eq!(areas.len(), 3);
    assert_eq!(areas[2], PixelRect { left: 0, top: 0, right: 100, bottom: 80 });
    assert!(window.render().unwrap().is_empty());
    assert!(wake_again(true, false) && wake_again(false, true) && !wake_again(false, false));
}

#[test]
fn new_sizes_are_told_once() {
    let mut window = Window::new(9, 100, 80);
    assert!(!window.handle_configure_notify(100, 80));
    assert!(window.handle_configure_notify(120, 80));
    assert!(!window.handle_configure_notify(120, 80));
    assert_eq!(window.invalid.len(), 1);
}

#[test]
fn windows_are_destroyed_once() {
    let mut window = Window::new(9, 100, 80);
    assert!(window.destroy());
    assert!(!window.destroy());
    assert!(window.render().is_none());
}

#[test]
fn keys_go_to_the_focused_field() {
    let mut window = Window::new(9, 100, 80);
    window.set_focused_text_field(Some(TextFieldToken(1)));
    assert_eq!(
        window.handle_key_event(KeyState::Down),
        KeyTarget::TextField(Some(TextFieldToken(1)))
    );
    assert_eq!(window.handle_key_event(KeyState::Up), KeyTarget::KeyUp);
    window.remove_text_field(TextFieldToken(1));
    assert_eq!(window.handle_key_event(KeyState::Down), KeyTarget::TextField(None));
    window.request_timer(Timer { deadline: 4, token: TimerToken(1) });
    assert_eq!(window.timer_queue.next_timeout(), Some(4));
}

fn labels() -> PenLabels {
    PenLabels { pressure: 101, x_tilt: 102, y_tilt: 103 }
}

fn axis(label: u32, number: u16) -> DeviceClass {
    DeviceClass::Valuator {
        label,
        number,
        min: Fp3232 { integral: 0, frac: 0 },
        max: Fp3232 { integral: 100, frac: 0 },
        resolution: 1,
    }
}

fn described(id: u16, name: &[u8], classes: Vec<DeviceClass>) -> DeviceDescription {
    DeviceDescription { id, name: name.to_vec(), device_type: DeviceType::SlavePointer, classes }
}

#[test]
fn erasers_are_told_by_their_name() {
    let pen = DeviceInfo::new(described(4, b"Wacom Pen stylus", vec![axis(101, 2)]), &labels());
    assert_eq!(pen.device_kind, DeviceKind::Pen);
    let eraser = DeviceInfo::new(described(5, b"Wacom Pen eraser", vec![axis(101, 2)]), &labels());
    assert_eq!(eraser.device_kind, DeviceKind::Eraser);
    let near = DeviceInfo::new(described(5, b"Wacom Pen erase", vec![axis(101, 2)]), &labels());
    assert_eq!(near.device_kind, DeviceKind::Pen);
}

#[test]
fn devices_have_kinds() {
    let touch = vec![DeviceClass::Touch { num_touches: 10 }];
    let touch = DeviceInfo::new(described(6, b"Touch eraser", touch), &labels());
    assert_eq!(touch.device_kind, DeviceKind::Touch);
    let mouse = DeviceInfo::new(described(7, b"Mouse", vec![DeviceClass::Other]), &labels());
    assert_eq!(mouse.device_kind, DeviceKind::Mouse);
    assert!(PenValuators::default().is_empty());
    let state = PointersState::initialize_pointers(
        vec![described(6, b"A", vec![]), described(9, b"B", vec![axis(102, 1)])],
        &labels(),
    );
    assert!(state.device_info(9).unwrap().valuators.x_tilt.is_some());
    assert!(state.device_info(8).is_none());
    assert!(PointersState::new().device_info(6).is_none());
}

#[test]
fn axes_are_tried_in_turn() {
    let same = PenLabels { pressure: 101, x_tilt: 101, y_tilt: 103 };
    let classes = vec![axis(101, 1), axis(101, 2), axis(103, 3), axis(101, 4)];
    let axes = PenValuators::new(&classes, &same);
    assert_eq!(axes.pressure.unwrap().idx, 1);
    assert_eq!(axes.x_tilt.unwrap().idx, 2);
    assert_eq!(axes.y_tilt.unwrap().idx, 3);
    let axes = PenValuators::new(&vec![axis(102, 5), axis(102, 6)], &labels());
    assert_eq!(axes.x_tilt.unwrap().idx, 5);
    assert!(axes.pressure.is_none() && axes.y_tilt.is_none());
}

#[test]
fn versions_of_the_input_extension() {
    assert!(is_supported_version(2, 4));
    assert!(is_supported_version(2, 3));
    assert!(!is_supported_version(1, 9));
    assert!(is_supported_version(3, 0));
}

#[test]
fn axes_are_read_within_their_range() {
    let info = ValuatorInfo {
        idx: 1,
        min: Fp3232 { integral: 0, frac: 0 }.to_scaled(),
        max: Fp3232 { integral: 10, frac: 0 }.to_scaled(),
        resolution: 1,
    };
    let half = Fp3232 { integral: 3, frac: 0x8000_0000 };
    let zero = Fp3232 { integral: 0, frac: 0 };
    assert_eq!(info.read(&[zero, half]), Some(half.to_scaled()));
    assert_eq!(half.to_scaled() as f64 / 4294967296.0, 3.5);
    let beyond = Fp3232 { integral: 12, frac: 0 };
    assert_eq!(info.read(&[zero, beyond]), Some(info.max));
    assert_eq!(info.read(&[zero]), None);
}
