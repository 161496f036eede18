//! Keyboard shortcuts.

use glazier::hotkey::{HotKey, RawMods};
use glazier::keyboard::{Code, KbKey, KeyEvent, KeyState, Location, Modifiers};

fn event(code: Code, bits: u32) -> KeyEvent {
    KeyEvent {
        state: KeyState::Down,
        key: KbKey::Unidentified,
        code,
        location: Location::Standard,
        mods: Modifiers { bits },
        repeat: false,
        is_composing: false,
    }
}

#[test]
fn hotkeys_ignore_lock_keys() {
    let key = HotKey {
        code: Code::Named(3),
        modifiers: Modifiers::from(RawMods::CtrlShift),
        printable: 'c',
    };
    let held = Modifiers::CONTROL | Modifiers::SHIFT;
    assert!(key.matches(&event(Code::Named(3), held)));
    assert!(key.matches(&event(Code::Named(3), held | Modifiers::CAPS_LOCK | Modifiers::NUM_LOCK)));
    assert!(!key.matches(&event(Code::Named(3), held | Modifiers::ALT)));
    assert!(!key.matches(&event(Code::Named(3), Modifiers::CONTROL)));
    assert!(!key.matches(&event(Code::Named(4), held)));
}
