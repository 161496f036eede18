//! Texts, sizes, dialogs, identifiers, menus and the handle for applications.

use glazier::dialog::{
    deliver, dialog, file_filter, Delivery, FileDialogOptions, FileDialogType, FileSpec,
};
use glazier::geometry::{RawRect, RawSize};
use glazier::glazier::{take_idle_actions, Glazier, GlazierBuilder, GlazierState, IdleAction, RawLoopHandle, Request};
use glazier::hotkey::{RawMods, SysMods};
use glazier::keyboard::Modifiers;
use glazier::linux::{choose_backend, get_monitors, Backend, CustomCursor, Menu, MenuEntry, NoBackend, WindowHandle};
use glazier::menu::{MenuBuilder, MenuItem, MenuItemId, MenuMember};
use glazier::strings::to_decimal;
use glazier::utf16::{decode, encode};
use glazier::util::Counter;
use glazier::window::{IdleToken, WindowDescription, WindowLevel};

#[test]
fn numbers_in_decimal() {
    for number in [0, 7, 10, 409, -1, -120, i32::MAX, i32::MIN] {
        assert_eq!(to_decimal(number), format!("{number}"));
    }
}

#[test]
fn utf16_there_and_back() {
    for text in ["", "plain", "é€", "\u{1f600} and \u{10ffff}", "\u{ffff}\u{10000}"] {
        let units = encode(text);
        assert_eq!(units, text.encode_utf16().collect::<Vec<u16>>());
        assert_eq!(decode(&units).unwrap(), text);
    }
    assert!(decode(&[0xd800]).is_none());
    assert!(decode(&[0xdc00, 0xd800]).is_none());
    assert!(decode(&[0x41, 0xd800, 0x42]).is_none());
}

#[test]
fn sizes_scale() {
    let size = RawSize { width: 30, height: 20 };
    let scaled = size.scale(3);
    assert_eq!(scaled, RawSize { width: 90, height: 60 });
    assert_eq!(scaled.area(), size.area() * 9);
    assert_eq!(scaled.to_rect(), RawRect { x0: 0, y0: 0, x1: 90, y1: 60 });
    assert!(RawSize { width: 5, height: 0 }.is_empty());
    assert!(RawSize::zero().is_empty());
    assert!(!size.is_empty());
    assert_eq!(size.debug_text(), "30×20");
    let rect = RawRect { x0: -1, y0: 2, x1: 3, y1: 4 };
    assert_eq!(rect.scale(2), RawRect { x0: -2, y0: 4, x1: 6, y1: 8 });
}

fn options() -> FileDialogOptions {
    FileDialogOptions {
        title: None,
        button_text: Some("Choose".to_string()),
        default_name: Some("untitled.txt".to_string()),
        starting_directory: Some("/home".to_string()),
        allowed_types: None,
        default_type: None,
        select_directories: false,
        multi_selection: true,
    }
}

#[test]
fn dialogs_for_opening() {
    let kinds = vec![FileSpec {
        name: "Pictures".to_string(),
        extensions: vec!["png".to_string(), "jpeg".to_string()],
    }];
    let request = dialog(
        FileDialogOptions { allowed_types: Some(kinds), ..options() },
        FileDialogType::Open,
    );
    assert_eq!(request.title, "Open File");
    assert!(request.multiple && !request.directory);
    assert_eq!(request.accept_label.as_deref(), Some("Choose"));
    assert_eq!(request.current_name, None);
    assert_eq!(request.filters[0].name, "Pictures");
    assert_eq!(request.filters[0].globs, vec!["*.png".to_string(), "*.jpeg".to_string()]);
    let folders = dialog(
        FileDialogOptions { select_directories: true, ..options() },
        FileDialogType::Open,
    );
    assert_eq!(folders.title, "Open Folder");
    assert!(folders.directory);
}

#[test]
fn dialogs_for_saving() {
    let kind = FileSpec { name: "Text".to_string(), extensions: vec!["txt".to_string()] };
    assert_eq!(file_filter(&kind).globs, vec!["*.txt".to_string()]);
    let request = dialog(
        FileDialogOptions { default_type: Some(kind), ..options() },
        FileDialogType::Save,
    );
    assert_eq!(request.title, "Save File");
    assert!(!request.multiple);
    assert_eq!(request.current_name.as_deref(), Some("untitled.txt"));
    assert_eq!(request.current_folder.as_deref(), Some("/home"));
    assert_eq!(request.current_filter.unwrap().name, "Text");
    let titled = FileDialogOptions { title: Some("Export".to_string()), ..options() };
    assert_eq!(dialog(titled, FileDialogType::Save).title, "Export");
}

#[test]
fn chosen_files_are_delivered_once() {
    let valid = vec![true, false, true];
    match deliver(FileDialogType::Open, true, &valid) {
        Delivery::OpenFiles(files) => assert_eq!(files, vec![0, 2]),
        _ => panic!("several files are opened"),
    }
    match deliver(FileDialogType::Open, false, &vec![false, true]) {
        Delivery::OpenFile(file) => assert_eq!(file, Some(1)),
        _ => panic!("one file is opened"),
    }
    match deliver(FileDialogType::Save, false, &vec![]) {
        Delivery::SaveAs(file) => assert_eq!(file, None),
        _ => panic!("one file is saved"),
    }
    assert!(matches!(deliver(FileDialogType::Save, true, &valid), Delivery::CannotSaveMultiple));
}

#[test]
fn counters_skip_zero_where_asked() {
    let mut counter = Counter::new();
    assert_eq!(counter.next(), 1);
    assert_eq!(counter.next_nonzero(), 2);
    assert_eq!(counter.to_raw(), 3);
    let mut last = Counter::new_with_initial_value(u64::MAX);
    assert_eq!(last.next(), u64::MAX);
    assert_eq!(last.next_nonzero(), 1);
    assert_eq!(last.next(), 2);
}

#[test]
fn a_shared_counter_wraps_without_repeating() {
    let counter = std::sync::Mutex::new(Counter::new_with_initial_value(u64::MAX - 10));
    let mut values: Vec<u64> = Vec::new();
    for _ in 0..100 {
        values.push(counter.lock().unwrap().next());
    }
    let distinct: std::collections::HashSet<u64> = values.iter().copied().collect();
    assert_eq!(distinct.len(), 100);
    assert!(distinct.contains(&u64::MAX) && distinct.contains(&0));
}

#[test]
fn windows_keep_the_id_that_they_were_assigned() {
    let mut ids = Counter::new();
    let mut desc = WindowDescription::new("Title");
    assert!(desc.resizable && desc.show_titlebar && !desc.transparent);
    let id = desc.assign_id(&mut ids);
    assert_eq!(desc.assign_id(&mut ids), id);
    assert_eq!(id.to_raw(), 1);
    let mut other = WindowDescription::default();
    assert_eq!(other.title, "Glazier Application Window");
    assert_ne!(other.assign_id(&mut ids), id);
    assert_eq!(WindowLevel::Modal(id).debug_text(), "Modal");
    assert_eq!(WindowLevel::AppWindow.parent(), None);
    assert_eq!(WindowLevel::DropDown(id).parent(), Some(id));
}

#[test]
fn queued_windows_come_first() {
    let mut ids = Counter::new();
    let mut builder = GlazierBuilder::new();
    let first = builder.new_window(WindowDescription::new("First"), &mut ids);
    let second = builder.new_window(WindowDescription::new("Second"), &mut ids);
    let mut glz = Glazier::new(7, 40);
    builder.launch(&mut glz, &mut ids);
    let third = glz.build_new_window(
        |desc| WindowDescription { resizable: false, ..desc },
        &mut ids,
    );
    glz.close_window(first);
    glz.set_window_scale(second, 2.0f64.to_bits());
    glz.stop();
    assert_eq!(glz.raw_handle(), RawLoopHandle(40));
    assert_eq!(glz.handle(7).deref(), RawLoopHandle(40));
    let requests = glz.take_requests();
    assert_eq!(requests.len(), 5);
    match &requests[0] {
        Request::NewWindow(desc) => {
            assert_eq!(desc.title, "First");
            assert_eq!(desc.id.as_ref().unwrap().id(), first);
        }
        _ => panic!("a window is asked for"),
    }
    match &requests[2] {
        Request::NewWindow(desc) => {
            assert!(!desc.resizable);
            assert_eq!(desc.id.as_ref().unwrap().id(), third);
        }
        _ => panic!("a window is asked for"),
    }
    assert!(matches!(requests[3], Request::SetWindowScale { win, .. } if win == second));
    assert!(matches!(requests[4], Request::Stop));
    assert!(glz.take_requests().is_empty());
}

#[test]
fn the_callback_comes_after_the_queued_windows() {
    let mut ids = Counter::new();
    let mut builder = GlazierBuilder::new();
    builder.new_window(WindowDescription::new("First"), &mut ids);
    builder.new_window(WindowDescription::new("Second"), &mut ids);
    let (calls, mut glz) = builder.launch_then(3, Glazier::new(7, 40), &mut ids, |calls, glz| {
        let mut glz = glz;
        glz.stop();
        (calls + 1, glz)
    });
    assert_eq!(calls, 4);
    let requests = glz.take_requests();
    assert_eq!(requests.len(), 3);
    for (request, title) in requests.iter().zip(["First", "Second"]) {
        match request {
            Request::NewWindow(desc) => assert_eq!(desc.title, title),
            _ => panic!("a window is asked for"),
        }
    }
    assert!(matches!(requests[2], Request::Stop));
    let boxed = GlazierBuilder::new().launch_then_dyn(
        Box::new("handler"),
        Glazier::new(7, 40),
        &mut ids,
        |handler, glz| (handler, glz),
    );
    assert_eq!(*boxed.0, "handler");
}

#[test]
fn failed_windows_are_told_of() {
    let mut ids = Counter::new();
    let mut state = GlazierState::new();
    let first = state.new_window(WindowDescription::new("A"), &mut ids);
    let second = state.new_window(WindowDescription::new("B"), &mut ids);
    let failures = state.finish_operations(vec![Err("no display"), Ok(12)]);
    assert_ne!(first, second);
    assert_eq!(failures.len(), 1);
    assert_eq!(failures[0].window, first);
    assert_eq!(failures[0].error, "no display");
    assert!(state.finish_operations::<u8>(vec![]).is_empty());
}

#[test]
fn idle_actions_are_taken_once() {
    let mut waiting = vec![IdleAction::Callback(1), IdleAction::Token(IdleToken::new(2))];
    assert_eq!(take_idle_actions(&mut waiting).len(), 2);
    assert!(take_idle_actions(&mut waiting).is_empty());
}

#[test]
fn command_is_control_or_meta() {
    assert_eq!(RawMods::from(SysMods::AltCmd), RawMods::AltCtrl);
    assert_eq!(SysMods::AltCmdShift.on_platform(true), RawMods::AltMetaShift);
    assert_eq!(Option::<RawMods>::from(SysMods::Cmd), Some(RawMods::Ctrl));
    let ctrl = Modifiers { bits: Modifiers::CONTROL };
    assert!(SysMods::Cmd == ctrl);
    assert!(ctrl == SysMods::Cmd);
    assert!(RawMods::Meta != ctrl);
    assert!(ctrl == RawMods::Ctrl);
    assert_eq!(Modifiers::from(RawMods::AltCtrlMetaShift).bits, 0x249);
    assert_eq!(Modifiers::from(RawMods::NoMods).bits, 0);
}

#[test]
fn menus_are_walked_by_links() {
    let member = |item, next: Option<usize>, child: Option<usize>| MenuMember {
        item,
        next_sibling: next.map(MenuItemId),
        first_child: child.map(MenuItemId),
    };
    let flat = MenuBuilder::of(vec![
        member(MenuItem::Ordinary, Some(1), None),
        member(MenuItem::Break, Some(2), None),
        member(MenuItem::Ordinary, None, None),
    ]);
    let mut walk = flat.walk(MenuItemId(0));
    assert_eq!(walk.next(), Some(MenuItem::Ordinary));
    assert_eq!(walk.next(), Some(MenuItem::Break));
    assert_eq!(walk.next(), Some(MenuItem::Ordinary));
    assert_eq!(walk.next(), None);
    let mut empty = MenuBuilder::of(vec![]);
    empty.add_child();
    empty.with_child_with_children();
    empty.with_child_with_children_builder();
}

#[test]
fn submenus_come_after_their_parent() {
    let nested = MenuBuilder::of(vec![
        MenuMember {
            item: MenuItem::Ordinary,
            next_sibling: None,
            first_child: Some(MenuItemId(1)),
        },
        MenuMember { item: MenuItem::Break, next_sibling: None, first_child: None },
    ]);
    let mut walk = nested.walk(MenuItemId(0));
    assert_eq!(walk.next(), Some(MenuItem::Ordinary));
    assert_eq!(walk.next(), Some(MenuItem::Break));
}

#[test]
fn wayland_is_preferred() {
    assert_eq!(choose_backend(true, true), Ok(Backend::Wayland));
    assert_eq!(choose_backend(false, true), Ok(Backend::X11));
    assert_eq!(choose_backend(false, false), Err(NoBackend));
    assert_eq!(get_monitors(Backend::X11, vec![1, 2]), vec![1, 2]);
    assert!(get_monitors(Backend::Wayland, vec![1]).is_empty());
    assert_eq!(CustomCursor::X11(3).unwrap_x11(), 3);
    assert_eq!(WindowHandle::default(), WindowHandle::Uninitialised);
    assert_eq!(WindowHandle::X11(4).unwrap_x11(), 4);
    assert_eq!(WindowHandle::Wayland(4).backend(), Backend::Wayland);
}

#[test]
fn menus_of_other_backends_are_left_out() {
    let mut menu = Menu::new(Backend::X11);
    menu.add_dropdown(Menu::new(Backend::Wayland), "Lost", true);
    assert!(menu.entries().is_empty());
    let mut file = Menu::new_for_popup(Backend::X11);
    file.add_item(5, "Open", None, Some(false), true);
    file.add_separator();
    menu.add_dropdown(file, "File", false);
    match &menu.entries()[0] {
        MenuEntry::Dropdown { menu, text, enabled } => {
            assert_eq!(text, "File");
            assert!(!enabled);
            assert!(matches!(menu[0], MenuEntry::Item { id: 5, .. }));
            assert!(matches!(menu[1], MenuEntry::Separator));
        }
        _ => panic!("a menu was added"),
    }
    assert!(menu.fits(Backend::X11) && !menu.fits(Backend::Wayland));
}
