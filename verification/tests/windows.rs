//! The Windows backend.

use glazier::dialog::FileDialogOptions;
use glazier::geometry::{DpPoint, DpSize};
use glazier::keyboard::{KbKey, KeyState, Modifiers};
use glazier::mouse::{Cursor, MouseButton, PixelPoint, WheelDelta};
use glazier::text::{Event, TextFieldToken};
use glazier::util::Counter;
use glazier::window::{IdleToken, TimerToken, WindowDescription, WindowLevel, WindowState};
use glazier::windows::application::{
    dpi_awareness, get_locale, handle_message, loop_step, register_class_once, DpiAwareness,
    LoopStep, Quit, State,
};
use glazier::windows::messages::{
    decode, get_buttons, Message, MK_LBUTTON, MK_XBUTTON2, WM_ACTIVATE, WM_CLOSE, WM_COMMAND,
    WM_CREATE, WM_DPICHANGED, WM_KEYDOWN, WM_LBUTTONDBLCLK, WM_MBUTTONUP, WM_MOUSEHWHEEL,
    WM_MOUSEMOVE, WM_MOUSEWHEEL, WM_SIZE, WM_TIMER, WM_XBUTTONDOWN,
};
use glazier::windows::style::{
    hit_border, set_style, show_command, state_command, window_state, PixelRect, HTBOTTOMRIGHT,
    HTCAPTION, HTCLIENT, HTLEFT, HTTOP, MOVE_FLAGS, RESIZE_FLAGS, SW_MAXIMIZE, SW_MINIMIZE,
    SW_RESTORE, SW_SHOWNOACTIVATE, WS_MAXIMIZE, WS_MINIMIZE, WS_OVERLAPPEDWINDOW, WS_POPUP,
    WS_SYSMENU,
};
use glazier::windows::text_input::{query_insert, SinkCall, TextStore, TsfError, TsfIntegration};
use glazier::windows::window::{
    add_idle, content_insets, get_hcursor, is_menu_key, win_proc_dispatch, Answers, ClickSettings,
    CursorChoice, DeferredAction, DeferredOp, Effect, IdleKind, KeyPress, MyWndProc,
    PlannedResize, PresentStrategy, WindowBuilder, WindowSettings, WndState, CW_USEDEFAULT,
    IDC_ARROW, IDC_NO, WM_NCDESTROY,
};

fn settings() -> WindowSettings {
    WindowSettings {
        dpi_x: 96,
        dpi_y: 96,
        width: 100,
        height: 100,
        has_menu: false,
        has_titlebar: true,
        is_transparent: false,
        is_resizable: true,
        handle_titlebar: false,
        active_text_input: None,
        is_focusable: true,
    }
}

fn answers() -> Answers {
    Answers {
        busy: false,
        mods: Modifiers { bits: 0 },
        window_dpi: None,
        monitor_dpi: Some(120),
        window_rect: PixelRect { left: 10, top: 20, right: 110, bottom: 220 },
        state: WindowState::Restored,
        handle_usable: true,
        padded_border: 4,
        size_frame: 4,
        default_hit: HTCLIENT,
        left_button_down: false,
        client_rect: Some(PixelRect { left: 0, top: 0, right: 100, bottom: 100 }),
        tracking: true,
        client_point: Some(PixelPoint { x: 7, y: 8 }),
        click: ClickSettings { now: 1_000_000_000, double_click_millis: 500, box_width: 4, box_height: 4 },
        key: None,
        accessible: Some(77),
    }
}

fn connected() -> MyWndProc {
    let mut proc_ = MyWndProc::new(settings());
    let dpi = proc_.connect(WndState::new(true, 0));
    assert_eq!(dpi, (proc_.window.dpi_x, proc_.window.dpi_y));
    proc_
}

#[test]
fn messages_are_taken_apart() {
    assert_eq!(decode(WM_CREATE, 0, 0), Message::Create);
    assert_eq!(decode(WM_ACTIVATE, 0x1_0000, 0), Message::Activate { active: false });
    assert_eq!(
        decode(WM_DPICHANGED, 0x0090_0060, 0),
        Message::DpiChanged { dpi_x: 0x90, dpi_y: 0x60 }
    );
    assert_eq!(decode(WM_SIZE, 0, 0x0190_0258), Message::Size { width: 600, height: 400 });
    assert_eq!(decode(WM_COMMAND, 0x1_0007, 0), Message::Command { id: 7 });
    assert_eq!(decode(WM_KEYDOWN, 0, 0), Message::Key);
    assert_eq!(
        decode(WM_MOUSEWHEEL, 0xff88_0001, 0xffff_0002),
        Message::Wheel { delta: -120, held: 1, x: 2, y: -1, horizontal: false }
    );
    assert_eq!(
        decode(WM_MOUSEHWHEEL, 0x0078_0000, 0),
        Message::Wheel { delta: 120, held: 0, x: 0, y: 0, horizontal: true }
    );
    assert_eq!(
        decode(WM_MOUSEMOVE, 1, 0x0003_fffe),
        Message::MouseMove { x: -2, y: 3, held: 1 }
    );
    assert_eq!(
        decode(WM_LBUTTONDBLCLK, 1, 0),
        Message::Button { button: Some(MouseButton::Primary), down: true, x: 0, y: 0, held: 1 }
    );
    assert_eq!(
        decode(WM_MBUTTONUP, 0, 0),
        Message::Button { button: Some(MouseButton::Auxiliary), down: false, x: 0, y: 0, held: 0 }
    );
    assert_eq!(
        decode(WM_XBUTTONDOWN, 0x0002_0040, 0),
        Message::Button { button: Some(MouseButton::X2), down: true, x: 0, y: 0, held: 0x2_0040 }
    );
    assert_eq!(
        decode(WM_XBUTTONDOWN, 0x0003_0000, 0),
        Message::Button { button: None, down: true, x: 0, y: 0, held: 0x3_0000 }
    );
    assert_eq!(decode(WM_CLOSE, 0, 0), Message::Close);
    assert_eq!(decode(WM_TIMER, 5, 0), Message::Timer { id: 5 });
    assert_eq!(decode(0xffff, 0, 0), Message::Other);
}

#[test]
fn held_buttons_are_read() {
    let buttons = get_buttons(MK_LBUTTON | MK_XBUTTON2);
    assert!(buttons.has_primary() && buttons.has_x2());
    assert_eq!(buttons.count(), 2);
}

#[test]
fn styles_follow_the_settings() {
    let changed = set_style(WS_OVERLAPPEDWINDOW, false, false).unwrap();
    assert_ne!(changed, WS_OVERLAPPEDWINDOW);
    assert_eq!(changed & WS_SYSMENU, 0);
    assert_eq!(set_style(changed, true, true).unwrap() & WS_SYSMENU, WS_SYSMENU);
    assert_eq!(set_style(0, true, true), None);
    assert_eq!(window_state(WS_MAXIMIZE), WindowState::Maximized);
    assert_eq!(window_state(WS_MINIMIZE), WindowState::Minimized);
    assert_eq!(window_state(0), WindowState::Restored);
    assert_eq!(show_command(false, WindowState::Restored), SW_SHOWNOACTIVATE);
    assert_eq!(state_command(true, WindowState::Maximized), SW_MAXIMIZE);
    assert_eq!(state_command(true, WindowState::Minimized), SW_MINIMIZE);
    assert_eq!(state_command(true, WindowState::Restored), SW_RESTORE);
}

#[test]
fn borders_are_hit() {
    let rect = PixelRect { left: 0, top: 0, right: 100, bottom: 100 };
    assert_eq!(hit_border(rect, 2, 50, 8), Some(HTLEFT));
    assert_eq!(hit_border(rect, 50, 2, 8), Some(HTTOP));
    assert_eq!(hit_border(rect, 98, 98, 8), Some(HTBOTTOMRIGHT));
    assert_eq!(hit_border(rect, 50, 50, 8), None);
    assert!(rect.contains(0, 0) && !rect.contains(100, 0));
    assert!(PixelRect { left: 5, top: 0, right: 5, bottom: 9 }.is_flat());
}

#[test]
fn windows_are_created_with_a_resolution() {
    let mut proc_ = connected();
    let step = proc_.window_proc(Message::Create, &answers());
    assert_eq!(step.reply, Some(0));
    assert!(matches!(step.effects[..], [Effect::Connect]));
    assert_eq!(proc_.window.dpi_x, 120);
    let none = Answers { monitor_dpi: None, ..answers() };
    proc_.window_proc(Message::Create, &none);
    assert_eq!(proc_.window.dpi_y, 96);
    let step = proc_.window_proc(Message::DpiChanged { dpi_x: 144, dpi_y: 144 }, &answers());
    assert_eq!(proc_.window.dpi_x, 144);
    assert!(matches!(
        step.effects[..],
        [Effect::Place { x: 10, y: 20, width: 100, height: 200, .. }]
    ));
}

#[test]
fn presses_are_counted_and_capture_the_mouse() {
    let mut proc_ = connected();
    let press = |button, down| Message::Button { button: Some(button), down, x: 5, y: 5, held: 1 };
    let step = proc_.window_proc(press(MouseButton::Primary, true), &answers());
    assert_eq!(step.reply, Some(0));
    match &step.effects[..] {
        [Effect::SetCapture, Effect::MouseDown(event)] => {
            assert_eq!((event.count, event.button), (1, MouseButton::Primary));
            assert_eq!(event.pos, PixelPoint { x: 5, y: 5 });
        }
        _ => panic!("the mouse is captured"),
    }
    let soon = Answers { click: ClickSettings { now: 1_200_000_000, ..answers().click }, ..answers() };
    let step = proc_.window_proc(press(MouseButton::Primary, true), &soon);
    match &step.effects[..] {
        [Effect::MouseDown(event)] => assert_eq!(event.count, 2),
        _ => panic!("the mouse is captured already"),
    }
    let late = Answers { click: ClickSettings { now: 9_000_000_000, ..answers().click }, ..answers() };
    let step = proc_.window_proc(press(MouseButton::Secondary, true), &late);
    match &step.effects[..] {
        [Effect::MouseDown(event)] => assert_eq!(event.count, 1),
        _ => panic!("the mouse is captured already"),
    }
    let step = proc_.window_proc(press(MouseButton::Secondary, false), &late);
    assert!(matches!(step.effects[..], [Effect::MouseUp(_)]));
    let step = proc_.window_proc(press(MouseButton::Primary, false), &late);
    assert!(matches!(step.effects[..], [Effect::MouseUp(_), Effect::DeferRelease]));
    assert!(step.drain && proc_.deferred_queue.is_empty());
    // What the handler defers while it is told of the release comes first
    proc_.defer(DeferredOp::ShowTitlebar(false));
    proc_.defer(DeferredOp::ReleaseMouseCapture);
    assert!(matches!(
        proc_.handle_deferred_queue()[..],
        [DeferredOp::ShowTitlebar(false), DeferredOp::ReleaseMouseCapture]
    ));
    let action = proc_.handle_deferred(DeferredOp::ReleaseMouseCapture, true);
    assert!(matches!(action, DeferredAction::ReleaseCapture));
}

#[test]
fn wheels_turn_with_shift() {
    let mut proc_ = connected();
    let wheel = Message::Wheel { delta: 120, held: 0, x: 0, y: 0, horizontal: false };
    let delta = |step: &glazier::windows::window::Step| match &step.effects[..] {
        [Effect::MouseWheel(event)] => event.wheel_delta,
        _ => panic!("the wheel was moved"),
    };
    let step = proc_.window_proc(wheel, &answers());
    assert_eq!(delta(&step), WheelDelta { x: 0, y: -120 });
    let shifted = Answers { mods: Modifiers { bits: Modifiers::SHIFT }, ..answers() };
    let step = proc_.window_proc(wheel, &shifted);
    assert_eq!(delta(&step), WheelDelta { x: -120, y: 0 });
    let lost = Answers { client_point: None, ..answers() };
    assert_eq!(proc_.window_proc(wheel, &lost).reply, None);
}

#[test]
fn the_mouse_comes_and_goes() {
    let mut proc_ = connected();
    let moved = Message::MouseMove { x: 1, y: 1, held: 0 };
    let step = proc_.window_proc(moved, &answers());
    assert!(matches!(step.effects[..], [Effect::TrackLeave, Effect::MouseMove(_)]));
    let step = proc_.window_proc(moved, &answers());
    assert!(matches!(step.effects[..], [Effect::MouseMove(_)]));
    let step = proc_.window_proc(Message::MouseLeave, &answers());
    assert!(matches!(step.effects[..], [Effect::MouseLeave]));
    assert!(!proc_.state.unwrap().has_mouse_focus);
}

#[test]
fn keys_focus_no_missing_menu() {
    let mut proc_ = connected();
    let press = |menu_key, taken| Answers {
        key: Some(KeyPress { state: KeyState::Down, menu_key, taken }),
        ..answers()
    };
    assert_eq!(proc_.window_proc(Message::Key, &press(true, false)).reply, Some(0));
    assert_eq!(proc_.window_proc(Message::Key, &press(false, false)).reply, None);
    assert_eq!(proc_.window_proc(Message::Key, &press(false, true)).reply, Some(0));
    let up = Answers {
        key: Some(KeyPress { state: KeyState::Up, menu_key: false, taken: false }),
        ..answers()
    };
    assert!(matches!(proc_.window_proc(Message::Key, &up).effects[..], [Effect::KeyUp]));
    assert!(is_menu_key(&KbKey::F10) && !is_menu_key(&KbKey::Enter));
}

#[test]
fn busy_handlers_are_left_alone() {
    let mut proc_ = connected();
    let busy = Answers { busy: true, ..answers() };
    let step = proc_.window_proc(Message::Close, &busy);
    assert_eq!(step.reply, None);
    assert!(step.effects.is_empty());
    let step = proc_.window_proc(Message::Close, &answers());
    assert!(matches!(step.effects[..], [Effect::RequestClose]));
    let step = proc_.window_proc(Message::Timer { id: 4 }, &answers());
    assert_eq!(step.reply, Some(1));
    assert!(matches!(
        step.effects[..],
        [Effect::KillTimer(4), Effect::FreeTimer(_), Effect::TimerFired(TimerToken(4))]
    ));
    assert_eq!(proc_.window_proc(Message::GetObject, &answers()).reply, Some(77));
    assert_eq!(proc_.window_proc(Message::Other, &answers()).reply, None);
}

#[test]
fn windows_without_a_title_bar() {
    let mut proc_ = connected();
    proc_.window.has_titlebar = false;
    let maximized = Answers { state: WindowState::Maximized, ..answers() };
    let step = proc_.window_proc(Message::NcCalcSize { client: true }, &maximized);
    assert_eq!(step.reply, Some(0));
    assert!(matches!(
        step.effects[..],
        [Effect::ShrinkFrame(PixelRect { left: 18, top: 28, right: 102, bottom: 212 })]
    ));
    let step = proc_.window_proc(Message::NcHitTest { x: 11, y: 100 }, &answers());
    assert_eq!(step.reply, Some(HTLEFT));
    proc_.handle_titlebar(true);
    let held = Answers { left_button_down: true, ..answers() };
    let step = proc_.window_proc(Message::NcHitTest { x: 50, y: 100 }, &held);
    assert_eq!(step.reply, Some(HTCAPTION));
}

#[test]
fn sizes_are_reported_once() {
    let mut proc_ = connected();
    let step = proc_.window_proc(Message::Size { width: 50, height: 60 }, &answers());
    assert!(matches!(
        step.effects[..],
        [Effect::Resized { width: 50, height: 60 }, Effect::RenderAll { .. }]
    ));
    assert_eq!((proc_.window.width, proc_.window.height), (50, 60));
    let step = proc_.window_proc(Message::Size { width: 0, height: 0 }, &answers());
    assert!(step.effects.is_empty());
    let step = proc_.window_proc(Message::GetMinMaxInfo, &answers());
    assert!(matches!(step.effects[..], [Effect::ReportMinSize]));
}

#[test]
fn idle_work_wakes_once() {
    let mut queue = Vec::new();
    assert!(add_idle(&mut queue, IdleKind::Callback(1)));
    assert!(!add_idle(&mut queue, IdleKind::Token(IdleToken::new(2))));
    let mut proc_ = connected();
    proc_.idle_queue = queue;
    let step = proc_.window_proc(Message::RunIdle, &answers());
    assert_eq!(step.effects.len(), 2);
    assert!(matches!(step.effects[0], Effect::RunIdle(IdleKind::Callback(1))));
    assert!(proc_.idle_queue.is_empty());
}

#[test]
fn operations_are_deferred() {
    let mut proc_ = connected();
    let point = DpPoint { x: 1.0f64.to_bits(), y: 2.0f64.to_bits() };
    proc_.set_position(&WindowLevel::AppWindow, point, point);
    let ops = proc_.handle_deferred_queue();
    assert_eq!(ops.len(), 2);
    assert!(matches!(ops[0], DeferredOp::SetWindowState(WindowState::Restored)));
    assert!(proc_.handle_deferred_queue().is_empty());
    let size = DpSize { width: 1.0f64.to_bits(), height: 1.0f64.to_bits() };
    assert!(matches!(
        proc_.handle_deferred(DeferredOp::SetSize(size), true),
        DeferredAction::Resize(_, RESIZE_FLAGS)
    ));
    assert!(matches!(
        proc_.handle_deferred(DeferredOp::SetPosition(point), true),
        DeferredAction::Move(_, MOVE_FLAGS)
    ));
    assert!(matches!(
        proc_.handle_deferred(DeferredOp::SetResizable(false), true),
        DeferredAction::SetStyle { resizable: false, titlebar: true }
    ));
    assert!(!proc_.window.is_resizable);
    assert!(matches!(
        proc_.handle_deferred(DeferredOp::ShowTitlebar(false), false),
        DeferredAction::Nothing
    ));
    assert!(proc_.window.has_titlebar);
}

#[test]
fn dialogs_have_tokens() {
    let options = || FileDialogOptions {
        title: None,
        button_text: None,
        default_name: None,
        starting_directory: None,
        allowed_types: None,
        default_type: None,
        select_directories: false,
        multi_selection: false,
    };
    let mut tokens = Counter::new();
    let mut proc_ = connected();
    let first = proc_.open_file(options(), &mut tokens);
    let second = proc_.save_as(options(), &mut tokens);
    assert_ne!(first, second);
    assert!(matches!(
        proc_.deferred_queue[..],
        [DeferredOp::Open(..), DeferredOp::SaveAs(..)]
    ));
}

#[test]
fn areas_are_painted_once() {
    let mut proc_ = connected();
    let area = PixelRect { left: 1, top: 1, right: 2, bottom: 2 };
    proc_.invalidate_rect(area);
    let update = PixelRect { left: 0, top: 0, right: 9, bottom: 9 };
    let areas = proc_.finish_paint(update);
    assert!(areas.contains(&area) && areas.contains(&update));
    assert_eq!(proc_.finish_paint(update), vec![update]);
}

#[test]
fn text_fields_of_windows() {
    let mut proc_ = connected();
    proc_.set_focused_text_field(Some(TextFieldToken(1)));
    proc_.remove_text_field(TextFieldToken(2));
    proc_.update_text_field(TextFieldToken(1), Event::Reset);
    assert_eq!(proc_.window.active_text_input, Some(TextFieldToken(1)));
    proc_.remove_text_field(TextFieldToken(1));
    assert_eq!(proc_.window.active_text_input, None);
}

#[test]
fn creating_windows() {
    let mut builder = WindowBuilder::new();
    builder.set_title("T".to_string());
    let size = DpSize { width: 640.0f64.to_bits(), height: 480.5f64.to_bits() };
    builder.set_size(size);
    builder.set_position(PixelPoint { x: 5, y: 6 });
    let plan = builder.build(PixelPoint { x: 50, y: 60 }, (640, 480));
    assert_eq!(plan.resize, Some(PlannedResize { size, flags: RESIZE_FLAGS }));
    assert_eq!((plan.style, plan.ex_style), (WS_OVERLAPPEDWINDOW, 0));
    assert_eq!((plan.x, plan.y, plan.width, plan.height), (5, 6, 640, 480));
    let owner = WindowDescription::default().assign_id(&mut Counter::new());
    builder.set_level(WindowLevel::Tooltip(owner));
    let plan = builder.build(PixelPoint { x: 50, y: 60 }, (640, 480));
    assert_eq!((plan.x, plan.y), (50, 60));
    assert_eq!(plan.style & WS_POPUP, WS_POPUP);
    assert_eq!(plan.parent, Some(owner));
    let plan = WindowBuilder::new().build(PixelPoint { x: 0, y: 0 }, (640, 480));
    assert_eq!((plan.x, plan.width), (CW_USEDEFAULT, CW_USEDEFAULT));
    assert_eq!((plan.settings.width, plan.settings.height), (0, 0));
    assert_eq!(plan.resize, None);
    let mut flipped = WindowBuilder::new();
    flipped.set_size(DpSize { width: (-5.0f64).to_bits(), height: 480.0f64.to_bits() });
    let plan = flipped.build(PixelPoint { x: 0, y: 0 }, (-5, 480));
    assert_eq!((plan.width, plan.height), (-5, 480));
    assert_eq!((plan.settings.width, plan.settings.height), (-5, 480));
    let clear = WindowBuilder::new().set_transparent(true, true);
    assert_eq!(clear.present_strategy, PresentStrategy::Flip);
    assert!(!WindowBuilder::new().set_transparent(true, false).transparent);
    builder.set_window_state(WindowState::Maximized);
    builder.resizable(false);
    builder.show_titlebar(false);
    let plan = builder.build(PixelPoint { x: 0, y: 0 }, (640, 480));
    assert_eq!(plan.style & WS_MAXIMIZE, WS_MAXIMIZE);
    assert_eq!(plan.style & WS_SYSMENU, 0);
}

#[test]
fn cursors_of_the_system() {
    assert_eq!(get_hcursor(&Cursor::OpenHand), CursorChoice::System(IDC_ARROW));
    assert_eq!(get_hcursor(&Cursor::NotAllowed), CursorChoice::System(IDC_NO));
    assert_eq!(get_hcursor(&Cursor::Custom(9)), CursorChoice::Custom(9));
}

#[test]
fn messages_are_dispatched() {
    let create = win_proc_dispatch(WM_CREATE, false);
    assert!(create.store && create.ask && !create.forget);
    let last = win_proc_dispatch(WM_NCDESTROY, true);
    assert!(last.ask && last.forget);
    let early = win_proc_dispatch(WM_SIZE, false);
    assert!(!early.ask && !early.store && !early.forget);
}

#[test]
fn insets_of_windows() {
    let insets = content_insets(
        PixelRect { left: 0, top: 0, right: 100, bottom: 100 },
        PixelRect { left: 8, top: 31, right: 92, bottom: 92 },
    );
    assert_eq!((insets.left, insets.top, insets.right, insets.bottom), (8, 31, 8, 8));
    let insets = content_insets(
        PixelRect { left: 100, top: 0, right: 0, bottom: 100 },
        PixelRect { left: 8, top: 92, right: 92, bottom: 31 },
    );
    assert_eq!((insets.left, insets.top, insets.right, insets.bottom), (8, 31, 8, 8));
}

#[test]
fn applications_quit_once() {
    let mut state = State::new();
    assert!(state.add_window(1));
    assert!(!state.add_window(1));
    assert!(state.add_window(2));
    assert!(state.remove_window(1));
    assert!(!state.remove_window(1));
    assert!(matches!(state.quit(true), Quit::Busy));
    match state.quit(false) {
        Quit::Destroy(windows) => assert_eq!(windows, vec![2]),
        _ => panic!("the windows are destroyed"),
    }
    assert!(matches!(state.quit(false), Quit::Already));
}

#[test]
fn the_event_loop() {
    assert!(matches!(loop_step(-1), LoopStep::Stop { error: true }));
    assert!(matches!(loop_step(0), LoopStep::Stop { error: false }));
    assert!(matches!(loop_step(1), LoopStep::Message));
    let mut registered = false;
    assert!(register_class_once(&mut registered));
    assert!(!register_class_once(&mut registered));
    assert!(matches!(dpi_awareness(true, true), DpiAwareness::Context));
    assert!(matches!(dpi_awareness(false, true), DpiAwareness::Process));
    assert!(matches!(dpi_awareness(false, false), DpiAwareness::Unaware));
    let plain = handle_message(WM_SIZE, 0x8000, false);
    assert!(plain.dispatch && !plain.run_callbacks);
    assert!(!handle_message(WM_SIZE, 0x8000, true).dispatch);
    assert!(handle_message(0x8000, 0x8000, false).run_callbacks);
}

#[test]
fn locales() {
    let units: Vec<u16> = "de-DE\0rest".encode_utf16().collect();
    assert_eq!(get_locale(&units, 6), "de-DE");
    assert_eq!(get_locale(&units, 0), "en-US");
}

#[test]
fn one_sink_at_a_time() {
    let mut cookies = 0;
    let mut store = TextStore::new(TextFieldToken(1), &mut cookies);
    assert_eq!(store.advise_sink(Some(5), true, true, 3), Ok(()));
    assert_eq!(store.advise_sink(Some(6), true, true, 3), Err(TsfError::AdviseLimit));
    assert_eq!(store.unadvise_sink(Some(6)), Err(TsfError::NoConnection));
    assert_eq!(store.request_lock(6), SinkCall::LockGranted(6));
    assert_eq!(query_insert(2, 4), (2, 4));
    assert_eq!(store.unadvise_sink(Some(5)), Ok(()));
    assert_eq!(store.advise_sink(Some(6), true, true, 3), Ok(()));
}

#[test]
fn sinks_hear_of_changes() {
    let mut cookies = 0;
    let mut tsf = TsfIntegration::new();
    let token = TextFieldToken(1);
    assert!(tsf.update(token, Event::Reset).is_err());
    let mut store = TextStore::new(token, &mut cookies);
    store.advise_sink(Some(5), true, true, 3).unwrap();
    tsf.register_text_field(store);
    let calls = tsf.update(token, Event::SelectionChanged).unwrap();
    assert!(matches!(calls[..], [SinkCall::SelectionChange { .. }]));
    let calls = tsf.update(token, Event::LayoutChanged).unwrap();
    assert!(matches!(calls[..], [SinkCall::LayoutChange(_)]));
    tsf.unregister_text_field(token);
    assert!(tsf.focus(token).is_err());
}
