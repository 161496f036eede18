//! The Wayland backend.

use glazier::geometry::{DpRect, DpSize, RawRect};
use glazier::keyboard::KeyState;
use glazier::text::{Event, TextFieldToken};
use glazier::util::Counter;
use glazier::wayland::globals::{initial_outputs, optional_global, BindError, Error};
use glazier::wayland::key_repeat::{
    deliver_key, CachedKeyPress, Event as RepeatEvent, KeyDelivery, Keyboard, Outcome, Repeat,
};
use glazier::wayland::keyboard::{
    KeyboardAction, KeyboardEvent, KeyboardState, KeymapFormat, RepeatInfo, TimerId,
};
use glazier::wayland::outputs::{MonitorId, OutputEvent, OutputId, Outputs, Subpixel, Transform};
use glazier::wayland::scale::{
    wm_capabilities, Painting, PerWindowState, ScaleSource, Windowing,
};
use glazier::wayland::seat::{
    find_seat, handle_new_seat, remove_seat, EditAction, EditEvent, EditPhase, FieldEdit, FieldStep,
    FutureInputLock, KeyRoute, SeatInfo, TextFieldChange, TextFieldChangeCause, TextFieldOwner,
    TextInputProperties, UpdateLoop, UpdateWork,
};
use glazier::wayland::surface::{Changed, Damage, Data, Dead, DeferredTask, SurfaceEvent};
use glazier::wayland::text_input::{ChangeCause, FieldRequest, InputState};
use glazier::wayland::text_input::TextFieldChange as FieldChange;
use glazier::wayland::window::{
    no_text_fields, show_titlebar, state_request, Bounds, DecorationMode, IdleAction, IdlePoll,
    IdleStep, Measures, PaintContext, StateRequest, WaylandWindowState, WindowAction, WindowBuilder,
    WindowConfigure, WindowOutcome, WindowProperties, Windows,
};
use glazier::wayland::{SeatName, SurfaceId};
use glazier::window::{IdleToken, TimerToken, WindowDescription, WindowId, WindowState};
use glazier::xkb::compose::{ComposeAnswer, ComposeFeedSym, ComposeKey, KeyEventsState};
use glazier::xkb::{KeySym, ModsIndices};

fn dp(width: f64, height: f64) -> DpSize {
    DpSize { width: width.to_bits(), height: height.to_bits() }
}

fn window_id(counter: &mut Counter) -> WindowId {
    WindowDescription::default().assign_id(counter)
}

#[test]
fn binding_globals() {
    assert_eq!(optional_global(Ok(1)), Ok(Some(1)));
    assert_eq!(optional_global::<u8>(Err(BindError::NotPresent)), Ok(None));
    assert_eq!(
        optional_global::<u8>(Err(BindError::UnsupportedVersion)),
        Err(BindError::UnsupportedVersion)
    );
    assert_eq!(initial_outputs(Ok(vec![1])), vec![1]);
    assert!(initial_outputs::<u8>(Err(BindError::UnsupportedVersion)).is_empty());
    let error = Error::Connect("refused".to_string());
    assert_eq!(error.text(), "could not connect to the wayland server: refused");
    assert_eq!(Error::Bind("x".to_string()).text(), "could not bind a wayland global: x");
    assert_eq!(Error::Calloop("x".to_string()).text(), "calloop failed: x");
}

#[test]
fn keyboards_repeat_until_their_key_is_released() {
    let mut keyboard = KeyboardState::new();
    assert_eq!(keyboard.handle_repeat(KeyState::Down, 30, true).start, None);
    let rate = KeyboardEvent::RepeatInfo { rate: 25, delay: 600 };
    assert!(matches!(keyboard.event(rate), KeyboardAction::Nothing));
    assert_eq!(keyboard.repeat_rate(), Some(25));
    assert_eq!(keyboard.handle_repeat(KeyState::Down, 30, true).start, Some((30, 600)));
    keyboard.repeating(TimerId(1), 30);
    assert_eq!(keyboard.handle_repeat(KeyState::Up, 31, true).stop, None);
    assert_eq!(keyboard.handle_repeat(KeyState::Down, 42, false).stop, None);
    let next = keyboard.handle_repeat(KeyState::Down, 31, true);
    assert_eq!((next.stop, next.start), (Some(TimerId(1)), Some((31, 600))));
    keyboard.repeating(TimerId(2), 31);
    assert_eq!(keyboard.handle_repeat(KeyState::Up, 31, true).stop, Some(TimerId(2)));
    let off = keyboard.event(KeyboardEvent::RepeatInfo { rate: 0, delay: 0 });
    assert!(matches!(off, KeyboardAction::StopTimer(None)));
    assert!(matches!(keyboard.repeat_settings, RepeatInfo::Disable));
    assert_eq!(keyboard.repeat_rate(), None);
}

#[test]
fn keyboard_events() {
    let mut keyboard = KeyboardState::new();
    let load = keyboard.event(KeyboardEvent::Keymap { format: KeymapFormat::XkbV1 });
    assert!(matches!(load, KeyboardAction::LoadKeymap));
    let none = keyboard.event(KeyboardEvent::Keymap { format: KeymapFormat::NoKeymap });
    assert!(matches!(none, KeyboardAction::DropKeyboard));
    let modifiers = || KeyboardEvent::Modifiers {
        mods_depressed: 1,
        mods_latched: 2,
        mods_locked: 3,
        group: 4,
    };
    assert!(matches!(keyboard.event(modifiers()), KeyboardAction::ModifiersTooEarly));
    keyboard.xkb_state = Some(KeyEventsState::new(indices(), true));
    match keyboard.event(modifiers()) {
        KeyboardAction::UpdateModifiers(mods) => {
            assert_eq!((mods.base_mods, mods.latched_mods, mods.locked_mods), (1, 2, 3));
            assert_eq!((mods.base_layout, mods.latched_layout, mods.locked_layout), (4, 0, 0));
        }
        _ => panic!("the modifiers are updated"),
    }
    match keyboard.event(KeyboardEvent::Key { key: 30, pressed: false }) {
        KeyboardAction::HandleKey { scancode, state } => {
            assert_eq!((scancode, state), (38, KeyState::Up));
        }
        _ => panic!("the key is handled"),
    }
    let enter = keyboard.event(KeyboardEvent::Enter { surface: SurfaceId(5) });
    assert!(matches!(enter, KeyboardAction::FocusEnter(SurfaceId(5))));
    assert!(matches!(keyboard.event(KeyboardEvent::Leave), KeyboardAction::FocusLeave));
}

#[test]
fn negative_times_wrap_around() {
    let mut keyboard = Keyboard::default();
    let rate = RepeatEvent::RepeatInfo { rate: -3, delay: -1 };
    assert!(matches!(keyboard.consume(1, rate), Outcome::Nothing));
    assert_eq!(keyboard.repeat, Repeat { rate: u64::MAX - 332, delay: u64::MAX });
}

#[test]
fn a_pressed_key_is_repeated_by_a_timer() {
    let mut keyboard = Keyboard::default();
    let rate = RepeatEvent::RepeatInfo { rate: 25, delay: 400 };
    assert!(matches!(keyboard.consume(1, rate), Outcome::Nothing));
    let down = RepeatEvent::Key { serial: 1, time: 9, key: 30, state: KeyState::Down };
    match keyboard.consume(1, down) {
        Outcome::Keystroke(stroke) => {
            assert_eq!((stroke.key, stroke.state, stroke.repeat), (38, KeyState::Down, false));
        }
        _ => panic!("a key was pressed"),
    }
    let (delay, press) = keyboard.repeat_timer().unwrap();
    assert_eq!((delay, press.key, press.repeat), (400, 38, true));
    let (stroke, next) = keyboard.repeat_fired(&press);
    assert_eq!((stroke.key, stroke.repeat, next), (38, true, 40));
    let up = RepeatEvent::Key { serial: 2, time: 10, key: 30, state: KeyState::Up };
    keyboard.consume(1, up);
    assert!(keyboard.repeat_timer().is_none());
}

#[test]
fn another_release_does_not_stop_a_repetition() {
    let mut keyboard = Keyboard::default();
    let key = |serial, key, state| RepeatEvent::Key { serial, time: 0, key, state };
    keyboard.consume(1, key(1, 30, KeyState::Down));
    keyboard.consume(1, key(2, 31, KeyState::Down));
    keyboard.consume(1, key(3, 30, KeyState::Up));
    assert_eq!(keyboard.repeat_timer().unwrap().1.key, 39);
    let cached = CachedKeyPress {
        seat: 1,
        serial: 1,
        timestamp: 0,
        key: 39,
        repeat: false,
        state: KeyState::Up,
    };
    assert!(keyboard.release_last_key_press(&cached).is_some());
    assert!(cached.repeat().repeat);
    assert!(matches!(keyboard.consume(1, RepeatEvent::Enter), Outcome::Nothing));
    assert!(keyboard.focused);
    keyboard.consume(1, RepeatEvent::Leave);
    assert!(!keyboard.focused);
    let defaults = Repeat::default();
    assert_eq!((defaults.rate, defaults.delay), (40, 600));
}

#[test]
fn keys_go_to_the_current_window() {
    assert_eq!(deliver_key(KeyState::Up, Some(None)), KeyDelivery::KeyUp);
    let field = Some(TextFieldToken(3));
    assert_eq!(deliver_key(KeyState::Down, Some(field)), KeyDelivery::Type(field));
    assert_eq!(deliver_key(KeyState::Down, None), KeyDelivery::Drop);
}

fn indices() -> ModsIndices {
    ModsIndices { control: 2, shift: 0, alt: 3, super_: 6, caps_lock: 1, num_lock: 4 }
}

fn composing_seat() -> SeatInfo {
    let mut seat = SeatInfo::new(SeatName(1), true);
    seat.new_keyboard();
    let mut xkb = KeyEventsState::new(indices(), true);
    let key = ComposeKey {
        keysym: KeySym(1),
        special: Some(ComposeFeedSym::DeadAcute),
        text: String::new(),
    };
    xkb.compose_key_down(key, false, ComposeAnswer::Composing);
    let mut keyboard = KeyboardState::new();
    keyboard.xkb_state = Some(xkb);
    seat.keyboard_state = Some(keyboard);
    seat.text_field_owner = TextFieldOwner::Keyboard;
    seat
}

#[test]
fn losing_the_focus_leaves_the_composed_text() {
    let mut seat = composing_seat();
    let plan = seat.window_focus_enter(SurfaceId(4), true);
    assert!(plan.enter);
    assert_eq!(plan.follow, Some(UpdateLoop::new(true, true)));
    let plan = seat.window_focus_enter(SurfaceId(5), true);
    assert!(!plan.enter);
    assert_eq!(plan.follow, None);
    let mut plain = SeatInfo::new(SeatName(2), false);
    assert_eq!(plain.window_focus_enter(SurfaceId(4), false).follow, None);
    let plan = plain.window_focus_enter(SurfaceId(4), true);
    assert_eq!(plan.follow, Some(UpdateLoop::new(true, false)));
    assert_eq!(seat.route_key(KeyState::Down, true), KeyRoute::KeyDown);
    assert_eq!(seat.route_key(KeyState::Up, true), KeyRoute::KeyUp);
    assert_eq!(seat.route_key(KeyState::Down, false), KeyRoute::Ignore);
    let props = TextInputProperties {
        active_text_field: Some(TextFieldToken(7)),
        ..no_text_fields()
    };
    let (window, plan) = seat.window_focus_leave(Some(props)).unwrap();
    assert_eq!(window, SurfaceId(4));
    assert!(plan.reset_table);
    match plan.edit {
        Some((token, FieldEdit::ReplaceComposition(text))) => {
            assert_eq!((token, text.as_str()), (TextFieldToken(7), "´"));
        }
        _ => panic!("the text stays"),
    }
    assert_eq!(seat.text_field_owner, TextFieldOwner::Neither);
    assert!(seat.window_focus_leave(None).is_none());
    assert_eq!(seat.route_key(KeyState::Down, true), KeyRoute::Ignore);
}

#[test]
fn changed_fields_only_lose_their_composition() {
    let mut seat = composing_seat();
    assert!(seat.input_method_forces_update());
    assert!(!seat.key_forces_update());
    let lock = FutureInputLock { token: TextFieldToken(7), field_updated: true };
    let plan = seat.force_release_preedit(Some(lock));
    assert!(matches!(plan.edit, Some((TextFieldToken(7), FieldEdit::ClearComposition))));
    seat.input_method_edited(true);
    assert!(seat.key_forces_update());
    let plan = seat.force_release_preedit(None);
    assert!(plan.edit.is_none() && !plan.reset_table);
    seat.destroy_keyboard();
    assert!(seat.keyboard_state.is_none());
}

#[test]
fn keymaps_replace_one_another() {
    let mut seat = SeatInfo::new(SeatName(1), false);
    seat.new_keyboard();
    assert!(seat.keyboard_state.as_ref().unwrap().xkb_state.is_none());
    seat.set_keymap(KeyEventsState::new(indices(), false));
    assert!(seat.keyboard_state.as_ref().unwrap().xkb_state.is_some());
    let mut composing = composing_seat();
    composing.set_keymap(KeyEventsState::new(indices(), false));
    assert_eq!(composing.text_field_owner, TextFieldOwner::Neither);
    let mut composing = composing_seat();
    composing.new_keyboard();
    assert_eq!(composing.text_field_owner, TextFieldOwner::Neither);
    assert!(composing.keyboard_state.unwrap().xkb_state.is_none());
}

#[test]
fn keys_take_their_way_into_a_field() {
    let mut seat = SeatInfo::new(SeatName(1), true);
    let down = EditEvent::Key { state: KeyState::Down, window_exists: true };
    let nothing = EditAction::Finish { store: None };
    assert_eq!(EditPhase::Start.step(&seat, down), nothing);
    seat.window_focus_enter(SurfaceId(4), true);
    let up = EditEvent::Key { state: KeyState::Up, window_exists: true };
    assert_eq!(EditPhase::Start.step(&seat, up), EditAction::TellKeyUp);
    let mut taken = EditPhase::Start;
    assert_eq!(taken.step(&seat, down), EditAction::OfferKey);
    assert_eq!(taken.step(&seat, EditEvent::Typed), EditAction::Wait);
    assert_eq!(taken.step(&seat, EditEvent::Handled(true)), nothing);
    assert_eq!(taken, EditPhase::Finished);

    let field = TextFieldToken(7);
    let mut press = EditPhase::Start;
    press.step(&seat, down);
    assert_eq!(press.step(&seat, EditEvent::Handled(false)), EditAction::ReadProperties);
    let mut props = TextInputProperties { next_text_field: Some(field), ..no_text_fields() };
    assert_eq!(
        press.step(&seat, EditEvent::Properties(props)),
        EditAction::Follow { store: None, work: UpdateWork::ForceRelease(None) }
    );
    props.active_text_field = Some(field);
    assert_eq!(
        press.step(&seat, EditEvent::Properties(props)),
        EditAction::Type { store: Some(props), field }
    );
    assert_eq!(press.step(&seat, EditEvent::Typed), EditAction::TellInputMethod(field));
    assert_eq!(press.step(&seat, EditEvent::Told), EditAction::Release(field));
    assert_eq!(press.step(&seat, EditEvent::Released), nothing);

    let mut without = EditPhase::Offered;
    without.step(&seat, EditEvent::Handled(false));
    assert_eq!(without.step(&seat, EditEvent::Properties(no_text_fields())), nothing);

    seat.text_field_owner = TextFieldOwner::TextInput;
    let mut forced = EditPhase::Offered;
    forced.step(&seat, EditEvent::Handled(false));
    let lock = FutureInputLock { token: field, field_updated: true };
    assert_eq!(
        forced.step(&seat, EditEvent::Properties(props)),
        EditAction::Follow { store: None, work: UpdateWork::ForceRelease(Some(lock)) }
    );
    let mut method = EditPhase::Start;
    let done = EditEvent::InputMethodDone { window_exists: true };
    assert_eq!(method.step(&seat, done), EditAction::ReadProperties);
    assert_eq!(
        method.step(&seat, EditEvent::Properties(props)),
        EditAction::Apply { store: None, field }
    );
    assert_eq!(method.step(&seat, EditEvent::Applied), EditAction::Release(field));
}

#[test]
fn updates_are_followed_to_the_end() {
    let mut props = TextInputProperties {
        active_text_field: Some(TextFieldToken(1)),
        next_text_field: Some(TextFieldToken(2)),
        active_text_field_updated: true,
        active_text_layout_changed: true,
    };
    let mut update = UpdateLoop::new(false, true);
    let mut works = Vec::new();
    loop {
        let step = update.step(props);
        if let Some(stored) = step.store {
            props = stored;
        }
        if step.work == UpdateWork::Finished {
            break;
        }
        works.push(step.work);
    }
    let lock = FutureInputLock { token: TextFieldToken(1), field_updated: true };
    assert_eq!(
        works,
        vec![
            UpdateWork::ForceRelease(Some(lock)),
            UpdateWork::SyncState(TextFieldToken(2)),
        ]
    );
    assert_eq!(props.active_text_field, Some(TextFieldToken(2)));
    assert!(!props.active_text_field_updated && !props.active_text_layout_changed);
}

#[test]
fn a_newly_focused_field_is_taken_up() {
    let props = TextInputProperties {
        active_text_field: Some(TextFieldToken(1)),
        next_text_field: Some(TextFieldToken(2)),
        active_text_field_updated: false,
        active_text_layout_changed: false,
    };
    let mut update = UpdateLoop::new(false, true);
    let lock = FutureInputLock { token: TextFieldToken(1), field_updated: false };
    assert_eq!(update.step(props).work, UpdateWork::ForceRelease(Some(lock)));
    let step = update.step(props);
    assert_eq!(step.work, UpdateWork::SyncState(TextFieldToken(2)));
    let stored = step.store.unwrap();
    assert_eq!(stored.active_text_field, Some(TextFieldToken(2)));
    assert_eq!(update.step(stored).work, UpdateWork::Finished);
}

#[test]
fn only_the_focused_window_concerns_a_seat() {
    let mut seat = composing_seat();
    seat.window_focus_enter(SurfaceId(4), true);
    let updated = |cause| {
        TextFieldChange::Updated(TextFieldToken(7), Event::SelectionChanged, cause)
    };
    assert!(updated(TextFieldChangeCause::Application).apply(&mut seat, SurfaceId(5)).is_empty());
    assert_eq!(
        updated(TextFieldChangeCause::Application).apply(&mut seat, SurfaceId(4)),
        vec![
            FieldStep::Lock(TextFieldToken(7), false),
            FieldStep::SyncState(ChangeCause::Other),
            FieldStep::ClearComposition,
            FieldStep::Unlock(TextFieldToken(7)),
        ]
    );
    assert!(updated(TextFieldChangeCause::TextInput).apply(&mut seat, SurfaceId(4)).is_empty());
    let changed = TextFieldChange::Changed { from: None, to: Some(TextFieldToken(9)) };
    assert_eq!(changed.apply(&mut seat, SurfaceId(4)).len(), 3);
    assert_eq!(seat.input_state.as_ref().unwrap().token, Some(TextFieldToken(9)));
}

#[test]
fn seats_have_names_of_their_own() {
    let mut names = Counter::new();
    let mut seats = Vec::new();
    let first = handle_new_seat(&mut seats, &mut names, false);
    let second = handle_new_seat(&mut seats, &mut names, true);
    assert_eq!(find_seat(&seats, second), Some(1));
    remove_seat(&mut seats, first);
    assert_eq!(find_seat(&seats, first), None);
    assert_eq!(find_seat(&seats, second), Some(0));
    assert!(seats[0].input_state.is_some());
}

#[test]
fn input_methods_follow_the_field() {
    let mut state = InputState::new();
    assert!(!state.remove_field());
    assert!(state.set_field_if_needed(TextFieldToken(1)));
    assert!(!state.set_field_if_needed(TextFieldToken(1)));
    assert!(state.is_for(Some(TextFieldToken(1))));
    let token = Some(TextFieldToken(1));
    let requests = state.text_field_changed(
        FieldChange::Updated(TextFieldToken(1), Event::LayoutChanged),
        token,
    );
    assert_eq!(requests, vec![FieldRequest::SyncCursor, FieldRequest::Release(TextFieldToken(1))]);
    let requests = state.text_field_changed(FieldChange::Changed, None);
    assert_eq!(requests, vec![FieldRequest::Disable]);
    assert!(state.token.is_none());
    let requests = state.enter(SurfaceId(2), token, token);
    assert_eq!(requests.len(), 3);
    assert_eq!(state.active_window, Some(SurfaceId(2)));
    state.leave(true);
    assert_eq!(state.active_window, None);
    assert!(state.changed);
    assert!(!state.needs_sync(17));
    assert!(state.needs_sync(0));
}

#[test]
fn updates_of_outputs_are_atomic() {
    let mut outputs = Outputs::new();
    outputs.setup(MonitorId(1), OutputId(10), 100);
    let monitor = MonitorId(1);
    assert!(outputs.event(monitor, OutputEvent::Scale(2)).is_none());
    assert_eq!(outputs.max_integer_scale(&vec![monitor]), 1);
    let change = outputs.event(monitor, OutputEvent::Done).unwrap();
    assert!(change.new && change.scale_factor_changed);
    assert_eq!(outputs.max_integer_scale(&vec![monitor]), 2);
    outputs.event(monitor, OutputEvent::Name("DP-1".to_string()));
    let geometry = OutputEvent::Geometry {
        subpixel: Some(Subpixel::Layout(2)),
        transform: Some(Transform::Turned(1)),
    };
    outputs.event(monitor, geometry);
    let change = outputs.event(monitor, OutputEvent::Done).unwrap();
    assert!(!change.new && !change.scale_factor_changed);
    assert!(outputs.event(MonitorId(9), OutputEvent::Done).is_none());
    let removed = outputs.remove_global(100).unwrap();
    let info = removed.info.unwrap();
    assert_eq!(info.name, "DP-1");
    assert_eq!(info.subpixel, Subpixel::Layout(2));
    assert!(outputs.remove_global(100).is_none());
}

#[test]
fn the_highest_scale_of_several_monitors_counts() {
    let mut ids = Counter::new();
    let window = window_id(&mut ids);
    let mut outputs = Outputs::new();
    for (monitor, scale) in [(1, 1), (2, 3), (3, 2)] {
        outputs.setup(MonitorId(monitor), OutputId(monitor + 10), monitor as u32);
        outputs.event(MonitorId(monitor), OutputEvent::Scale(scale));
        outputs.event(MonitorId(monitor), OutputEvent::Done);
    }
    let all = vec![MonitorId(1), MonitorId(2), MonitorId(3)];
    assert_eq!(outputs.max_integer_scale(&all), 3);
    assert_eq!(outputs.max_integer_scale(&vec![]), 1);
    assert_eq!(outputs.window_entered_output(OutputId(12), window), Some(MonitorId(2)));
    assert_eq!(outputs.window_entered_output(OutputId(99), window), None);
    assert_eq!(outputs.window_left_output(OutputId(12), window), Some(MonitorId(2)));
}

#[test]
fn better_scales_replace_worse_ones() {
    let fractional = ScaleSource::Fractional(180);
    let buffer = ScaleSource::Buffer(2);
    let fallback = ScaleSource::Fallback(1);
    assert_eq!(ScaleSource::better(&buffer, &fractional), fractional);
    assert_eq!(ScaleSource::better(&fractional, &buffer), fractional);
    assert_eq!(ScaleSource::better(&fallback, &buffer), buffer);
    assert_eq!(buffer.normalise(), 240);
    assert!(ScaleSource::Fractional(240).equal(&buffer));
    assert!(fallback.needs_fallback() && !buffer.needs_fallback());
}

#[test]
fn windows_propose_scales() {
    let mut outputs = Outputs::new();
    outputs.setup(MonitorId(1), OutputId(11), 1);
    outputs.event(MonitorId(1), OutputEvent::Scale(2));
    outputs.event(MonitorId(1), OutputEvent::Done);
    let mut window = PerWindowState::new(true);
    assert_eq!(window.surface_entered(Some(MonitorId(1)), &outputs), None);
    assert_eq!(window.configure(&outputs), Some(ScaleSource::Fallback(2)));
    assert_eq!(window.configure(&outputs), None);
    assert!(window.acknowledges());
    assert_eq!(window.surface_left(Some(MonitorId(1)), &outputs), Some(ScaleSource::Fallback(1)));
    assert_eq!(window.surface_left(Some(MonitorId(1)), &outputs), None);
    assert_eq!(window.surface_entered(Some(MonitorId(1)), &outputs), Some(ScaleSource::Fallback(2)));
    assert_eq!(window.preferred_scale(ScaleSource::Buffer(2)), None);
    let proposed = window.preferred_scale(ScaleSource::Fractional(150));
    assert_eq!(proposed, Some(ScaleSource::Fractional(150)));
    assert_eq!(window.platform_requested_scale, Some(ScaleSource::Fractional(150)));
    assert_eq!(window.preferred_scale(ScaleSource::Fractional(150)), None);
    assert_eq!(window.surface_left(Some(MonitorId(1)), &outputs), None);
    assert_eq!(window.configure(&outputs), None);
    assert_eq!(window.platform_requested_scale, Some(ScaleSource::Fractional(150)));
    window.is_closing = true;
    assert_eq!(window.preferred_scale(ScaleSource::Fractional(130)), None);
    assert!(!window.acknowledges());
}

#[test]
fn new_windows_paint_once_configured() {
    let mut window = PerWindowState::new(true);
    window.will_repaint = true;
    assert_eq!(window.do_paint(PaintContext::Requested, false), Painting::Later);
    window.configure(&Outputs::new());
    assert_eq!(
        window.do_paint(PaintContext::Requested, false),
        Painting::Now { request_frame: true }
    );
    window.will_repaint = true;
    assert_eq!(window.do_paint(PaintContext::Requested, false), Painting::Later);
    assert_eq!(
        window.do_paint(PaintContext::Configure, true),
        Painting::Now { request_frame: false }
    );
    window.will_repaint = true;
    assert_eq!(
        window.do_paint(PaintContext::Frame, false),
        Painting::Now { request_frame: true }
    );
    assert_eq!(window.do_paint(PaintContext::Frame, false), Painting::Later);
}

#[test]
fn scales_are_set_on_known_windows() {
    let mut ids = Counter::new();
    let mut desc = WindowDescription::new("Title");
    let id = desc.assign_id(&mut ids);
    let mut windowing = Windowing::new();
    assert!(!windowing.set_window_scale(id, 1.5f64.to_bits()));
    windowing.new_window(&desc, id);
    assert!(windowing.set_window_scale(id, 1.5f64.to_bits()));
}

#[test]
fn capabilities_are_read_from_bytes() {
    let capabilities = wm_capabilities(&[2, 0, 0, 0, 9, 0, 0, 0, 4, 0, 0, 0, 1, 0], true);
    assert!(capabilities.maximize && capabilities.minimize);
    assert!(!capabilities.window_menu && !capabilities.fullscreen);
    let capabilities = wm_capabilities(&[0, 0, 0, 1, 0, 0, 0, 3], false);
    assert!(capabilities.window_menu && capabilities.fullscreen);
    assert!(!wm_capabilities(&[0, 0, 0, 1], true).window_menu);
}

fn configured() -> WindowConfigure {
    WindowConfigure {
        maximized: false,
        resizing: false,
        suggested_bounds: None,
        new_width: Some(640),
        new_height: None,
    }
}

fn measures(within_bounds: bool) -> Measures {
    Measures { within_bounds, compositor_size: dp(640.0, 800.0) }
}

#[test]
fn requested_sizes_count_unless_maximized() {
    let size = dp(320.0, 200.0);
    let mut props = WindowProperties::new(Some(size));
    assert_eq!(props.get_size(), dp(600.0, 800.0));
    assert_eq!(props.current_scale, 1.0f64.to_bits());
    assert_eq!(props.configure(configured(), &measures(false)), size);
    assert_eq!(props.get_size(), size);
    assert_eq!(props.requested_size, None);
    let maximized = WindowConfigure { maximized: true, ..configured() };
    let mut props = WindowProperties::new(Some(size));
    assert_eq!(props.configure(maximized, &measures(true)), dp(640.0, 800.0));
    assert_eq!(props.get_size(), dp(640.0, 800.0));
    let mut props = WindowProperties::new(None);
    assert_eq!(props.configure(configured(), &measures(true)), dp(640.0, 800.0));
}

#[test]
fn each_requested_size_is_held_to_the_bounds_by_itself() {
    let bounds = Some(Bounds { width: 500, height: 500 });
    let mut windows = Windows::new();
    let id = SurfaceId(3);
    let plan = WindowBuilder::new().size(dp(320.0, 200.0)).build();
    windows.run(WindowAction::Create(plan.state), id, &measures(false));
    windows.configure(
        id,
        WindowConfigure { suggested_bounds: bounds, ..configured() },
        &measures(true),
    );
    assert_eq!(windows.get(id).unwrap().properties.get_size(), dp(320.0, 200.0));
    for (size, fits) in [(dp(9000.0, 9000.0), false), (dp(100.0, 100.0), true)] {
        let mut window = windows.get(id).unwrap();
        let action = window.properties.set_size(size);
        windows.put(id, window);
        let expected = if fits { size } else { dp(640.0, 800.0) };
        match windows.run(action, id, &measures(fits)) {
            WindowOutcome::Resized { size, paint } => {
                assert_eq!(size, expected);
                assert!(paint.paint);
            }
            _ => panic!("the window has a size"),
        }
        let properties = windows.get(id).unwrap().properties;
        assert_eq!(properties.get_size(), expected);
        assert_eq!(properties.requested_size, None);
    }
    windows.scale_factor_changed(id, 2.0f64.to_bits(), dp(50.0, 50.0));
    let properties = windows.get(id).unwrap().properties;
    assert_eq!(properties.get_size(), dp(50.0, 50.0));
    assert_eq!(properties.current_scale, 2.0f64.to_bits());
}

#[test]
fn actions_run_on_windows_that_exist() {
    let mut windows = Windows::new();
    let id = SurfaceId(3);
    assert_eq!(windows.run(WindowAction::AnimationRequested, id, &measures(true)), WindowOutcome::Gone);
    let plan = WindowBuilder::new().size(dp(10.0, 10.0)).title("T".to_string()).build();
    assert_eq!(plan.title, "T");
    assert_eq!(plan.app_id, "org.linebender.glazier.user_app");
    assert_eq!(windows.run(WindowAction::Create(plan.state), id, &measures(true)), WindowOutcome::Connected);
    assert_eq!(windows.run(WindowAction::TextField, id, &measures(true)), WindowOutcome::NotFocused);
    match windows.configure(id, configured(), &measures(true)) {
        WindowOutcome::Resized { paint, .. } => assert!(paint.paint && paint.request_frame),
        _ => panic!("the window has a size"),
    }
    assert!(windows.get(id).unwrap().properties.configured);
    let token = IdleToken::new(4);
    assert_eq!(
        windows.idle_step(IdlePoll::Ready(IdleAction::Token(id, token))),
        IdleStep::Idle(id, token)
    );
    assert_eq!(windows.timer_due(id, TimerToken(8)), Some(TimerToken(8)));
    assert_eq!(
        windows.run(WindowAction::Close, id, &measures(true)),
        WindowOutcome::Closed { seat: None, stop: true }
    );
    assert_eq!(windows.run(WindowAction::Close, id, &measures(true)), WindowOutcome::Gone);
    assert_eq!(windows.timer_due(id, TimerToken(8)), None);
    assert_eq!(
        windows.idle_step(IdlePoll::Ready(IdleAction::Token(id, token))),
        IdleStep::Skip
    );
    assert_eq!(windows.idle_step(IdlePoll::Empty), IdleStep::Wait);
}

#[test]
fn frames_are_throttled() {
    let mut windows = Windows::new();
    let id = SurfaceId(3);
    let mut state = WaylandWindowState {
        properties: WindowProperties::new(None),
        text_input_seat: None,
    };
    state.set_input_seat(SeatName(1));
    windows.put(id, state);
    assert_eq!(
        windows.run(WindowAction::TextField, id, &measures(true)),
        WindowOutcome::FollowTextField(SeatName(1))
    );
    windows.configure(id, configured(), &measures(true));
    assert!(!windows.frame(id).unwrap().paint);
    let mut window = windows.get(id).unwrap();
    assert!(window.properties.request_anim_frame());
    windows.put(id, window);
    assert!(windows.frame(id).unwrap().paint);
    assert!(windows.frame(SurfaceId(9)).is_none());
    window.remove_input_seat(SeatName(1));
    assert_eq!(window.text_input_seat, None);
    assert_eq!(window.properties.set_size(dp(1.0, 1.0)), WindowAction::ResizeRequested);
}

#[test]
fn window_requests() {
    assert_eq!(state_request(WindowState::Maximized), StateRequest::SetMaximized);
    assert_eq!(state_request(WindowState::Restored), StateRequest::UnsetMaximized);
    assert_eq!(show_titlebar(true), DecorationMode::Server);
    assert_eq!(show_titlebar(false), DecorationMode::Client);
    let mut props = no_text_fields();
    props.set_focused_text_field(Some(TextFieldToken(1)));
    assert_eq!(props.next_text_field, Some(TextFieldToken(1)));
    assert!(!props.update_text_field(TextFieldToken(1), Event::Reset));
    assert!(props.remove_text_field(TextFieldToken(1)));
    assert!(!props.remove_text_field(TextFieldToken(1)));
}

fn damage(x0: i32, x1: i32) -> Damage {
    Damage {
        area: DpRect {
            x0: (x0 as f64).to_bits(),
            y0: 0.0f64.to_bits(),
            x1: (x1 as f64).to_bits(),
            y1: 10.0f64.to_bits(),
        },
        raw: RawRect { x0, y0: 0, x1, y1: 10 },
    }
}

#[test]
fn surfaces_collect_damage() {
    let mut data = Data::new(dp(100.0, 100.0));
    data.invalidate_rect(damage(1, 5), true);
    data.invalidate_rect(damage(5, 5), false);
    let painting = data.paint(true, damage(0, 100));
    assert!(!painting.damage_all);
    assert_eq!(painting.damage.len(), 1);
    assert_eq!((painting.damage[0].x, painting.damage[0].width), (1, 4));
    assert!(painting.paint && data.damaged_region.is_empty());
    assert!(!data.paint(true, damage(0, 100)).paint);
    data.invalidate(damage(0, 100));
    assert!(data.paint(false, damage(0, 100)).damage_all);
}

#[test]
fn surfaces_follow_their_outputs() {
    let mut data = Data::new(dp(100.0, 100.0));
    assert!(data.set_scale(2).is_changed());
    assert!(!data.set_scale(2).is_changed());
    assert!(Changed::Changed.is_changed());
    assert!(data.consume_surface_event(SurfaceEvent::Enter(4), Some(3)));
    assert_eq!(data.outputs, vec![4]);
    assert_eq!(data.scale, 3);
    data.consume_surface_event(SurfaceEvent::Leave(4), None);
    assert!(data.outputs.is_empty());
    assert!(!data.consume_surface_event(SurfaceEvent::Other, None));
    assert!(data.update_dimensions(dp(50.0, 50.0), true));
    assert!(!data.update_dimensions(dp(50.0, 50.0), false));
}

#[test]
fn surfaces_defer_tasks() {
    let mut data = Data::new(dp(100.0, 100.0));
    assert!(data.request_anim_frame());
    assert!(!data.request_anim_frame());
    data.schedule_deferred_task(DeferredTask::AnimationClear);
    assert!(!data.run_deferred_tasks());
    assert!(data.request_anim_frame());
    data.schedule_deferred_task(DeferredTask::Paint);
    assert!(data.run_deferred_tasks());
    assert!(!data.run_deferred_tasks());
    data.set_focused_text_field(Some(TextFieldToken(1)));
    data.remove_text_field(TextFieldToken(2));
    assert_eq!(data.active_text_input, Some(TextFieldToken(1)));
    data.remove_text_field(TextFieldToken(1));
    assert_eq!(data.active_text_input, None);
}

#[test]
fn dead_surfaces_have_nothing() {
    let dead = Dead::default();
    assert!(dead.get_size().is_empty());
    assert_eq!(dead.get_scale(), 1);
    assert!(dead.surface().is_err());
}
