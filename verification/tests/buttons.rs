//! Mouse and pointer buttons and events.

use glazier::keyboard::Modifiers;
use glazier::mouse::{
    Cursor, CursorDesc, MouseButton, MouseButtons, MouseEvent, PixelPoint, WheelDelta,
};
use glazier::pointer::{
    Angle, MouseInfo, PenInclination, PenInfo, PointerButton, PointerButtons, PointerEvent,
    PointerId, PointerType, TouchInfo,
};

#[test]
fn mouse_buttons_are_a_set() {
    let mut buttons = MouseButtons::new();
    assert!(buttons.is_empty());
    buttons.insert(MouseButton::Primary);
    buttons.insert(MouseButton::X2);
    buttons.insert(MouseButton::X2);
    assert_eq!(buttons.count(), 2);
    assert!(buttons.has_primary() && buttons.has_x2());
    assert!(!buttons.has_secondary() && !buttons.has_auxiliary() && !buttons.has_x1());
    buttons.remove(MouseButton::X2);
    assert!(!buttons.contains(MouseButton::X2));
    assert!(buttons.contains(MouseButton::Primary));
    let both = buttons.union(MouseButtons::new().with(MouseButton::Secondary));
    assert!(both.is_superset(buttons));
    assert!(!buttons.is_superset(both));
    buttons.extend(both);
    assert_eq!(buttons, both);
    buttons.clear();
    assert_eq!(buttons, MouseButtons::default());
}

#[test]
fn no_button_is_in_no_set() {
    let mut buttons = MouseButtons::new();
    buttons.insert(MouseButton::NoButton);
    assert!(buttons.is_empty());
    assert!(!buttons.contains(MouseButton::NoButton));
    assert!(!MouseButton::NoButton.is_primary());
    assert!(MouseButton::X1.is_x1());
    assert!(MouseButton::Secondary.is_secondary());
    assert!(MouseButton::Auxiliary.is_auxiliary());
    let pointers = PointerButtons::new().with(PointerButton::NoButton);
    assert!(pointers.is_empty());
}

#[test]
fn sets_of_buttons_as_text() {
    let buttons = MouseButtons::new().with(MouseButton::Primary).with(MouseButton::X2);
    assert_eq!(buttons.debug_text(), "MouseButtons(10001)");
    let pointers = PointerButtons::new().with(PointerButton::Secondary);
    assert_eq!(pointers.debug_text(), "PointerButtons(00001)");
}

#[test]
fn pointer_buttons_are_a_set() {
    let all = [
        PointerButton::Primary,
        PointerButton::Secondary,
        PointerButton::Auxiliary,
        PointerButton::X1,
        PointerButton::X2,
    ];
    let mut buttons = PointerButtons::new();
    for (i, button) in all.iter().enumerate() {
        assert!(!buttons.contains(*button));
        buttons.insert(*button);
        assert_eq!(buttons.count(), i as u32 + 1);
    }
    assert!(buttons.without(PointerButton::X1).has_x2());
    assert!(!buttons.without(PointerButton::X1).has_x1());
}

#[test]
fn single_mouse_buttons_keep_their_meaning() {
    assert_eq!(PointerButton::from(MouseButton::Primary), PointerButton::Primary);
    assert_eq!(PointerButton::from(MouseButton::X2), PointerButton::X2);
    assert_eq!(PointerButton::from(MouseButton::NoButton), PointerButton::NoButton);
}

#[test]
fn sets_of_mouse_buttons_keep_their_members() {
    let pairs = [
        (MouseButton::Primary, PointerButton::Primary),
        (MouseButton::Secondary, PointerButton::Secondary),
        (MouseButton::Auxiliary, PointerButton::Auxiliary),
        (MouseButton::X1, PointerButton::X1),
        (MouseButton::X2, PointerButton::X2),
    ];
    let mut all = MouseButtons::new();
    for (mouse, pointer) in pairs {
        let alone = PointerButtons::from(MouseButtons::new().with(mouse));
        assert_eq!(alone, PointerButtons::new().with(pointer));
        assert_eq!(alone.count(), 1);
        all.insert(mouse);
    }
    assert!(PointerButtons::from(MouseButtons::new()).is_empty());
    let primary = PointerButtons::from(MouseButtons::new().with(MouseButton::Primary));
    assert!(primary.has_primary() && !primary.has_secondary());
    let all = PointerButtons::from(all);
    assert_eq!(all.count(), 5);
    assert!(all.is_superset(primary) && !primary.is_superset(all));
    assert_eq!(all.debug_text(), "PointerButtons(01111)");
}

#[test]
fn mouse_events_become_pointer_events() {
    let event = MouseEvent {
        pos: PixelPoint { x: 3, y: -4 },
        buttons: MouseButtons::new().with(MouseButton::Auxiliary),
        mods: Modifiers { bits: Modifiers::SHIFT },
        count: 2,
        focus: true,
        button: MouseButton::Auxiliary,
        wheel_delta: WheelDelta { x: 0, y: 120 },
    };
    let pointer = PointerEvent::from(event);
    assert_eq!(pointer.pos, PixelPoint { x: 3, y: -4 });
    assert_eq!(pointer.button, PointerButton::Auxiliary);
    assert_eq!(pointer.buttons, PointerButtons::new().with(PointerButton::Auxiliary));
    assert_eq!(pointer.count, 2);
    assert!(pointer.focus && pointer.is_primary && pointer.is_mouse());
    assert!(!pointer.is_pen() && !pointer.is_touch());
    assert_eq!(
        pointer.pointer_type,
        PointerType::Mouse(MouseInfo { wheel_delta: WheelDelta { x: 0, y: 120 } })
    );
    let plain = PointerEvent::default();
    assert_eq!(plain.pointer_id, PointerId(0));
    assert!(plain.buttons.is_empty());
}

#[test]
fn cursors() {
    assert_eq!(Cursor::ResizeUpDown.debug_text(), "Cursor::ResizeUpDown");
    let desc = CursorDesc::new(PixelPoint { x: 1, y: 2 });
    assert_eq!(desc.hot, PixelPoint { x: 1, y: 2 });
}

#[test]
fn pens_and_touches_start_with_half_the_pressure() {
    let pen = PenInfo::default();
    assert_eq!(f64::from_bits(pen.pressure), 0.5);
    assert_eq!(f64::from_bits(pen.tangential_pressure), 0.0);
    assert_eq!(f64::from_bits(pen.twist.to_radians()), 0.0);
    let upright = PenInclination::default();
    assert_eq!(pen.inclination, upright);
    let right_angle = 90.0 * std::f64::consts::PI / 180.0;
    assert_eq!(f64::from_bits(upright.altitude.to_radians()), right_angle);
    assert_eq!(upright.azimuth, Angle::radians(0.0f64.to_bits()));
    let touch = TouchInfo::default();
    assert_eq!(f32::from_bits(touch.pressure), 0.5);
    assert_eq!(f64::from_bits(touch.contact_geometry.width), 1.0);
    let event = PointerEvent { pointer_type: PointerType::Touch(touch), ..PointerEvent::default() };
    assert!(event.is_touch() && !event.is_mouse());
    let event = PointerEvent { pointer_type: PointerType::Eraser(pen), ..PointerEvent::default() };
    assert!(!event.is_pen());
}
