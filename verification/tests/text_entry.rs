//! Typing, composing and input methods, on a text field that works like an editor.

use std::ops::Range;

use glazier::keyboard::{KbKey, KeyEvent, Modifiers};
use glazier::text::simulate::{
    simulate_compose, simulate_input, simulate_single_input, CompositionResult,
};
use glazier::text::{
    Action, Affinity, Characters, Direction, InputHandler, Movement, Requests, Selection,
    TextFieldToken, VerticalMovement,
};
use glazier::wayland::seat::{SeatInfo, TextFieldOwner};
use glazier::wayland::text_input::{ChangeCause, InputMethodEvent, InputState};
use glazier::wayland::SeatName;
use glazier::windows::text_input::{
    acp_from_point, acp_to_range, extent_end, get_end_acp, get_selection, get_text,
    insert_text_at_selection, range_to_acp, set_selection, set_text, text_extent, AcpSelection,
    ActiveEnd, ExtentBox, InsertionRefusal, TextChange, TsfError, INSERT_NOQUERY, INSERT_QUERYONLY,
};
use glazier::xkb::compose::{
    ComposeAnswer, ComposeFeedSym, ComposeKey, ComposeRequest, KeyEventsState,
};
use glazier::xkb::{
    char_text, get_logical_key, is_nul_terminated, key_get_char, keycode_index, log_level,
    xkb_simulate_input, EffectiveMods, KeySym, KeyboardHandled, LogLevel, ModsIndices, XkbLogLevel,
};

struct Field {
    text: String,
    selection: Selection,
    composition: Option<Range<usize>>,
    actions: Vec<Action>,
}

impl Field {
    fn new(text: &str, anchor: usize, active: usize) -> Field {
        Field {
            text: text.to_string(),
            selection: Selection::new(anchor, active),
            composition: None,
            actions: Vec::new(),
        }
    }
}

impl InputHandler for Field {
    fn requests(&self) -> Requests {
        unreachable!()
    }

    fn current_selection(&self) -> Selection {
        unreachable!()
    }

    fn current_composition(&self) -> Option<Range<usize>> {
        unreachable!()
    }

    fn document_len(&self) -> usize {
        unreachable!()
    }

    fn boundary(&self, _index: usize) -> bool {
        unreachable!()
    }

    fn text_in(&self, _range: Range<usize>) -> Characters {
        unreachable!()
    }

    fn line_around(&self, _index: usize, _affinity: Affinity) -> Range<usize> {
        unreachable!()
    }

    fn units_in(&self, _range: Range<usize>) -> usize {
        unreachable!()
    }

    fn bytes_in(&self, _range: Range<usize>) -> usize {
        unreachable!()
    }

    fn selection(&self) -> Selection {
        self.selection
    }

    fn composition_range(&self) -> Option<Range<usize>> {
        self.composition.clone()
    }

    fn len(&self) -> usize {
        self.text.len()
    }

    fn is_char_boundary(&self, index: usize) -> bool {
        self.text.is_char_boundary(index)
    }

    fn slice(&self, range: Range<usize>) -> String {
        self.text[range].to_string()
    }

    fn line_range(&self, index: usize, _affinity: Affinity) -> Range<usize> {
        let start = self.text[..index].rfind('\n').map_or(0, |at| at + 1);
        let end = self.text[index..].find('\n').map_or(self.text.len(), |at| index + at);
        start..end
    }

    fn utf8_to_utf16(&self, range: Range<usize>) -> usize {
        self.text[range].encode_utf16().count()
    }

    fn utf16_to_utf8(&self, range: Range<usize>) -> usize {
        let units: Vec<u16> = self.text.encode_utf16().collect();
        String::from_utf16(&units[range]).unwrap().len()
    }

    fn set_selection(&mut self, selection: Selection) {
        self.selection = selection;
    }

    fn set_composition_range(&mut self, range: Option<Range<usize>>) {
        self.composition = range;
    }

    fn replace_range(&mut self, range: Range<usize>, text: &str) {
        let start = range.start;
        self.text.replace_range(range, text);
        self.selection = Selection::caret(start + text.len());
        self.composition = None;
    }

    fn handle_action(&mut self, action: Action) {
        self.actions.push(action);
    }
}

fn mods(bits: u32) -> Modifiers {
    Modifiers { bits }
}

fn press(bits: u32, key: KbKey) -> KeyEvent {
    KeyEvent::for_test(mods(bits), key)
}

#[test]
fn typed_text_replaces_the_selection() {
    let mut field = Field::new("good morning", 12, 5);
    assert!(simulate_single_input(&KeyEvent::for_test(mods(0), "né"), &mut field));
    assert_eq!(field.text, "good né");
    assert_eq!(field.selection, Selection::caret(8));
}

#[test]
fn shortcuts_do_not_type() {
    for held in [Modifiers::CONTROL, Modifiers::META, Modifiers::ALT] {
        let mut field = Field::new("text", 0, 4);
        assert!(!simulate_single_input(&KeyEvent::for_test(mods(held), "c"), &mut field));
        assert_eq!(field.text, "text");
        assert!(field.actions.is_empty());
    }
    let mut field = Field::new("", 0, 0);
    assert!(simulate_single_input(&KeyEvent::for_test(mods(Modifiers::SHIFT), "C"), &mut field));
    assert_eq!(field.text, "C");
}

#[test]
fn keys_become_actions() {
    let cases = [
        (0, KbKey::ArrowLeft, Action::Move(Movement::Grapheme(Direction::Left))),
        (Modifiers::CONTROL, KbKey::ArrowRight, Action::Move(Movement::Word(Direction::Right))),
        (
            Modifiers::SHIFT,
            KbKey::ArrowUp,
            Action::MoveSelecting(Movement::Vertical(VerticalMovement::LineUp)),
        ),
        (0, KbKey::ArrowDown, Action::Move(Movement::Vertical(VerticalMovement::LineDown))),
        (0, KbKey::Backspace, Action::Delete(Movement::Grapheme(Direction::Upstream))),
        (Modifiers::CONTROL, KbKey::Delete, Action::Delete(Movement::Word(Direction::Downstream))),
        (0, KbKey::Enter, Action::InsertNewLine { ignore_hotkey: false, newline_type: '\n' }),
        (0, KbKey::Tab, Action::InsertTab { ignore_hotkey: false }),
        (Modifiers::SHIFT, KbKey::Tab, Action::InsertBacktab),
        (0, KbKey::Home, Action::Move(Movement::Line(Direction::Upstream))),
        (
            Modifiers::CONTROL,
            KbKey::Home,
            Action::Move(Movement::Vertical(VerticalMovement::DocumentStart)),
        ),
        (
            Modifiers::CONTROL | Modifiers::SHIFT,
            KbKey::End,
            Action::MoveSelecting(Movement::Vertical(VerticalMovement::DocumentEnd)),
        ),
        (0, KbKey::PageUp, Action::Move(Movement::Vertical(VerticalMovement::PageUp))),
        (0, KbKey::PageDown, Action::Move(Movement::Vertical(VerticalMovement::PageDown))),
    ];
    for (bits, key, action) in cases {
        let mut field = Field::new("text", 2, 2);
        assert!(simulate_single_input(&press(bits, key), &mut field));
        assert_eq!(field.actions, vec![action]);
        assert_eq!(field.text, "text");
    }
    let mut field = Field::new("text", 2, 2);
    assert!(!simulate_single_input(&press(0, KbKey::F10), &mut field));
    assert!(field.actions.is_empty());
}

#[test]
fn input_needs_a_focused_field() {
    let mut field = Field::new("", 0, 0);
    assert!(!simulate_input(None, &KeyEvent::for_test(mods(0), "a"), &mut field));
    assert_eq!(field.text, "");
    let token = Some(TextFieldToken(1));
    assert!(simulate_input(token, &KeyEvent::for_test(mods(0), "a"), &mut field));
    assert_eq!(field.text, "a");
}

#[test]
fn composition_is_shown_and_replaced() {
    let mut field = Field::new("ab", 1, 1);
    let dead = press(0, KbKey::Unidentified);
    let started = CompositionResult::Updated { text: "´", just_started: true };
    assert!(simulate_compose(&mut field, &dead, started));
    assert_eq!(field.text, "a´b");
    assert_eq!(field.composition, Some(1..3));
    let finished = CompositionResult::Finished("é");
    assert!(simulate_compose(&mut field, &KeyEvent::for_test(mods(0), "e"), finished));
    assert_eq!(field.text, "aéb");
    assert_eq!(field.composition, None);
}

#[test]
fn cancelled_composition_stays_and_the_key_is_typed() {
    let mut field = Field::new("", 0, 0);
    let started = CompositionResult::Updated { text: "´", just_started: true };
    simulate_compose(&mut field, &press(0, KbKey::Unidentified), started);
    let cancelled = CompositionResult::Cancelled("´");
    assert!(simulate_compose(&mut field, &KeyEvent::for_test(mods(0), "x"), cancelled));
    assert_eq!(field.text, "´x");
}

fn indices() -> ModsIndices {
    ModsIndices { control: 2, shift: 0, alt: 3, super_: 6, caps_lock: 1, num_lock: 4 }
}

fn compose_key() -> ComposeKey {
    ComposeKey {
        keysym: KeySym(0xff20),
        special: Some(ComposeFeedSym::Compose),
        text: String::new(),
    }
}

fn plain(text: &str) -> ComposeKey {
    ComposeKey { keysym: KeySym(text.chars().next().unwrap() as u32), special: None, text: text.to_string() }
}

fn text_of(result: CompositionResult<'_>) -> String {
    match result {
        CompositionResult::NoComposition => "none".to_string(),
        CompositionResult::Cancelled(text) => format!("cancelled {text}"),
        CompositionResult::Updated { text, just_started } => {
            format!("updated {text} {just_started}")
        }
        CompositionResult::Finished(text) => format!("finished {text}"),
    }
}

#[test]
fn the_compose_placeholder_is_overwritten() {
    let mut state = KeyEventsState::new(indices(), true);
    let result = state.compose_key_down(compose_key(), false, ComposeAnswer::Composing);
    assert_eq!(text_of(result), "updated · true");
    assert!(state.is_composing());
    let result = state.compose_key_down(plain("o"), false, ComposeAnswer::Composing);
    assert_eq!(text_of(result), "updated o false");
    let result = state.compose_key_down(compose_key(), false, ComposeAnswer::Composing);
    assert_eq!(text_of(result), "updated o· false");
    let done = ComposeAnswer::Composed { symbol: Some('ö'), text: "unused".to_string() };
    let result = state.compose_key_down(plain("\""), false, done);
    assert_eq!(text_of(result), "finished ö");
    assert!(!state.is_composing());
}

#[test]
fn backspace_takes_back_one_key_of_a_sequence() {
    let mut state = KeyEventsState::new(indices(), true);
    state.compose_key_down(compose_key(), false, ComposeAnswer::Composing);
    state.compose_key_down(plain("o"), false, ComposeAnswer::Composing);
    match state.compose_request(true) {
        ComposeRequest::Replay(keysyms) => assert_eq!(keysyms, vec![KeySym(0xff20)]),
        _ => panic!("the sequence has to be replayed"),
    }
    let result = state.compose_key_down(plain("b"), true, ComposeAnswer::Ignored);
    assert_eq!(text_of(result), "updated · false");
    assert!(state.is_composing());
    let result = state.compose_key_down(plain("b"), true, ComposeAnswer::Ignored);
    assert_eq!(text_of(result), "cancelled ");
    assert!(!state.is_composing());
    assert!(matches!(state.compose_request(true), ComposeRequest::Feed));
}

#[test]
fn cancelled_sequences_leave_their_text() {
    let mut state = KeyEventsState::new(indices(), true);
    let dead = |special| ComposeKey { keysym: KeySym(1), special: Some(special), text: String::new() };
    state.compose_key_down(dead(ComposeFeedSym::DeadDoublegrave), false, ComposeAnswer::Composing);
    state.compose_key_down(plain("x"), false, ComposeAnswer::Composing);
    let result = state.compose_key_down(plain("y"), false, ComposeAnswer::Cancelled);
    assert_eq!(text_of(result), "cancelled ◌\u{030f}x");
    assert!(!state.is_composing());
    assert_eq!(state.cancelled_string(), "");
    state.compose_key_down(plain("x"), false, ComposeAnswer::Composing);
    let done = ComposeAnswer::Composed { symbol: None, text: "z".to_string() };
    assert_eq!(text_of(state.compose_key_down(plain("y"), false, done)), "finished z");
    assert_eq!(state.cancelled_string(), "");
    state.compose_key_down(dead(ComposeFeedSym::DeadAcute), false, ComposeAnswer::Composing);
    assert!(state.cancel_composing());
    assert!(!state.cancel_composing());
    assert_eq!(state.cancelled_string(), "´");
    assert_eq!(state.cancelled_string(), "");
}

#[test]
fn without_a_compose_table_nothing_is_composed() {
    let mut state = KeyEventsState::new(indices(), false);
    assert!(matches!(state.compose_request(false), ComposeRequest::Skip));
    let result = state.compose_key_down(compose_key(), false, ComposeAnswer::Composing);
    assert_eq!(text_of(result), "none");
    assert!(!state.is_composing());
    assert_eq!(state.mod_indices(), indices());
}

#[test]
fn composing_into_a_field_claims_and_releases_it() {
    let mut state = KeyEventsState::new(indices(), true);
    let mut field = Field::new("", 0, 0);
    let event = press(0, KbKey::Unidentified);
    let handled = xkb_simulate_input(
        &mut state,
        compose_key(),
        false,
        ComposeAnswer::Composing,
        &event,
        &mut field,
    );
    assert_eq!(handled, KeyboardHandled::UpdatedClaimingCompose);
    let typed = KeyEvent::for_test(mods(0), "o");
    let handled =
        xkb_simulate_input(&mut state, plain("o"), false, ComposeAnswer::Composing, &typed, &mut field);
    assert_eq!(handled, KeyboardHandled::UpdatedRetainingCompose);
    assert_eq!(field.text, "o");
    let done = ComposeAnswer::Composed { symbol: None, text: "ö!".to_string() };
    let handled = xkb_simulate_input(&mut state, plain("\""), false, done, &typed, &mut field);
    assert_eq!(handled, KeyboardHandled::UpdatedReleasingCompose);
    assert_eq!(field.text, "ö!");
    let handled =
        xkb_simulate_input(&mut state, plain("o"), false, ComposeAnswer::Nothing, &typed, &mut field);
    assert_eq!(handled, KeyboardHandled::UpdatedNoCompose);
    assert_eq!(field.text, "ö!o");
    let handled =
        xkb_simulate_input(&mut state, plain("o"), false, ComposeAnswer::Ignored, &event, &mut field);
    assert_eq!(handled, KeyboardHandled::NoUpdate);
}

#[test]
fn keysyms_become_characters() {
    assert_eq!(key_get_char(0), None);
    assert_eq!(key_get_char(0x20ac), Some('€'));
    assert_eq!(char_text('€'), "€");
    assert!(matches!(get_logical_key(KbKey::Enter, 13), KbKey::Enter));
    match get_logical_key(KbKey::Unidentified, 0x1f600) {
        KbKey::Character(text) => assert_eq!(text, "\u{1f600}"),
        _ => panic!("the key types a character"),
    }
    assert!(matches!(get_logical_key(KbKey::Unidentified, 0), KbKey::Unidentified));
    assert_eq!(keycode_index(24), Some(24));
    assert_eq!(keycode_index(0x1_0000), None);
}

#[test]
fn keyboard_settings() {
    assert!(is_nul_terminated(b"keymap\0"));
    assert!(!is_nul_terminated(b"keymap"));
    assert_eq!(log_level(LogLevel::Error), XkbLogLevel::Critical);
    assert_eq!(log_level(LogLevel::Trace), XkbLogLevel::Debug);
    let effective = EffectiveMods {
        control: true,
        shift: false,
        super_: true,
        alt: false,
        caps_lock: false,
        num_lock: true,
    };
    let mut state = KeyEventsState::new(indices(), true);
    state.update_xkb_state(effective);
    let expected = keyboard_types::Modifiers::CONTROL
        | keyboard_types::Modifiers::SUPER
        | keyboard_types::Modifiers::NUM_LOCK;
    assert_eq!(state.active_mods().bits, expected.bits());
}

#[test]
fn modifier_bits_are_the_usual_ones() {
    assert_eq!(Modifiers::ALT, keyboard_types::Modifiers::ALT.bits());
    assert_eq!(Modifiers::CAPS_LOCK, keyboard_types::Modifiers::CAPS_LOCK.bits());
    assert_eq!(Modifiers::CONTROL, keyboard_types::Modifiers::CONTROL.bits());
    assert_eq!(Modifiers::META, keyboard_types::Modifiers::META.bits());
    assert_eq!(Modifiers::NUM_LOCK, keyboard_types::Modifiers::NUM_LOCK.bits());
    assert_eq!(Modifiers::SCROLL_LOCK, keyboard_types::Modifiers::SCROLL_LOCK.bits());
    assert_eq!(Modifiers::SHIFT, keyboard_types::Modifiers::SHIFT.bits());
    assert_eq!(Modifiers::SUPER, keyboard_types::Modifiers::SUPER.bits());
}

#[test]
fn input_methods_edit_a_field() {
    let mut state = InputState::new();
    state.reset(Some(TextFieldToken(1)));
    let mut field = Field::new("hello wrld", 7, 7);
    let request = state.sync_state(&field, ChangeCause::Other);
    let surrounding = request.surrounding.unwrap();
    assert_eq!(surrounding.text, "hello wrld");
    assert_eq!((surrounding.cursor, surrounding.anchor), (7, 7));
    state.note(InputMethodEvent::PreeditString {
        text: Some("o".to_string()),
        cursor_begin: 1,
        cursor_end: 1,
    });
    assert!(state.done(&mut field));
    assert_eq!(field.text, "hello world");
    assert_eq!(field.composition, Some(7..8));
    state.note(InputMethodEvent::CommitString { text: Some("o".to_string()) });
    assert!(!state.done(&mut field));
    assert_eq!(field.text, "hello world");
    assert_eq!(field.composition, None);
    assert_eq!(field.selection, Selection::caret(8));
    state.note(InputMethodEvent::DeleteSurroundingText { before_length: 2, after_length: 1 });
    state.note(InputMethodEvent::CommitString { text: Some("!".to_string()) });
    state.done(&mut field);
    assert_eq!(field.text, "hello !ld");
}

#[test]
fn hidden_cursors_may_lie_before_the_text() {
    let mut state = InputState::new();
    state.reset(Some(TextFieldToken(1)));
    let mut field = Field::new("abc", 0, 0);
    state.note(InputMethodEvent::PreeditString {
        text: Some("o".to_string()),
        cursor_begin: -1,
        cursor_end: -1,
    });
    assert!(state.done(&mut field));
    assert_eq!(field.text, "oabc");
    assert_eq!(field.composition, Some(0..1));
    assert_eq!(field.selection, Selection::caret(usize::MAX));
    let mut field = Field::new("abc", 2, 2);
    state.note(InputMethodEvent::PreeditString {
        text: Some("o".to_string()),
        cursor_begin: -1,
        cursor_end: 0,
    });
    assert!(state.done(&mut field));
    assert_eq!(field.selection, Selection::new(1, 2));
}

#[test]
fn long_lines_are_described_at_their_start() {
    let mut state = InputState::new();
    state.reset(Some(TextFieldToken(1)));
    let long = "a".repeat(10_000);
    let field = Field::new(&long, 10, 10);
    let surrounding = state.sync_state(&field, ChangeCause::Other).surrounding.unwrap();
    assert_eq!(surrounding.text.len(), 60);
    assert_eq!((surrounding.cursor, surrounding.anchor), (10, 10));
    assert_eq!(state.buffer_start, Some(0));
}

#[test]
fn surrounding_text_is_limited() {
    let mut state = InputState::new();
    state.reset(Some(TextFieldToken(1)));
    let long = "a".repeat(10_000);
    let field = Field::new(&long, 5_000, 5_000);
    let request = state.sync_state(&field, ChangeCause::InputMethod);
    let surrounding = request.surrounding.unwrap();
    assert!(surrounding.text.len() <= 4_000);
    let at = surrounding.cursor as usize;
    assert!(at <= surrounding.text.len());
}

#[test]
fn text_services_count_in_utf16() {
    let field = Field::new("a\u{1f600}b", 0, 5);
    assert_eq!(acp_to_range(&field, 1, 3), 1..5);
    assert_eq!(range_to_acp(&field, 0..5), (0, 3));
    assert_eq!(get_end_acp(&field), 4);
    let selection = get_selection(&field, 0).unwrap();
    assert_eq!((selection.start, selection.end), (0, 3));
    assert_eq!(selection.active_end, ActiveEnd::End);
    let backward = Field::new("abc", 2, 0);
    let selection = get_selection(&backward, 0).unwrap();
    assert_eq!((selection.start, selection.end), (0, 2));
    assert_eq!(selection.active_end, ActiveEnd::Start);
}

#[test]
fn text_services_set_the_selection() {
    let mut field = Field::new("a\u{1f600}b", 0, 0);
    set_selection(&mut field, &[AcpSelection { start: 1, end: 3, active_end: ActiveEnd::Start }]);
    assert_eq!(field.selection, Selection::new(5, 1));
    set_selection(&mut field, &[]);
    assert_eq!(field.selection, Selection::new(5, 1));
}

#[test]
fn text_services_read_and_write() {
    let mut field = Field::new("one two", 4, 7);
    let reply = get_text(&field, 4, -1, 10, true).unwrap();
    assert_eq!(String::from_utf16(&reply.units).unwrap(), "two");
    assert_eq!(reply.next, 3);
    let reply = get_text(&field, 0, 6, 4, true).unwrap();
    assert_eq!(String::from_utf16(&reply.units).unwrap(), "one");
    assert_eq!(reply.run, Some(6));
    let reply = get_text(&field, 0, 3, 0, false).unwrap();
    assert!(reply.units.is_empty());
    assert_eq!((reply.next, reply.run), (3, None));
    let refusal = get_text(&field, 9, -1, 3, false).unwrap_err();
    assert_eq!((refusal.error, refusal.next), (TsfError::InvalidPosition, 9));
    let change = set_text(&mut field, 0, 3, &[b't' as u16, b'w' as u16, b'o' as u16]).unwrap();
    assert_eq!(field.text, "two two");
    assert_eq!(change, TextChange { start: 0, old_end: 3, new_end: 3 });
    assert_eq!(acp_from_point(&field, 3, true).unwrap(), 3);
    assert_eq!(acp_from_point(&field, 3, false).unwrap_err(), TsfError::InvalidPoint);
}

#[test]
fn text_services_insert_at_the_selection() {
    let mut field = Field::new("one two", 4, 7);
    let units: Vec<u16> = "three".encode_utf16().collect();
    let asked = insert_text_at_selection(&mut field, INSERT_QUERYONLY, &units).unwrap();
    assert_eq!(field.text, "one two");
    assert!(asked.change.is_none());
    let done = insert_text_at_selection(&mut field, INSERT_NOQUERY, &units).unwrap();
    assert_eq!(field.text, "one three");
    assert_eq!(done.change, Some(TextChange { start: 4, old_end: 7, new_end: 12 }));
}

#[test]
fn refused_insertions_tell_their_place() {
    let mut field = Field::new("one two", 4, 7);
    let refusal = insert_text_at_selection(&mut field, 0, &[0xd800, 0x0041]).unwrap_err();
    assert_eq!(
        refusal,
        InsertionRefusal { error: TsfError::Unexpected, start: 4, end: 9 }
    );
    let unknown = INSERT_NOQUERY | INSERT_QUERYONLY;
    let refusal = insert_text_at_selection(&mut field, unknown, &[0x0041]).unwrap_err();
    assert_eq!(
        refusal,
        InsertionRefusal { error: TsfError::InvalidArgument, start: 4, end: 8 }
    );
    assert_eq!(field.text, "one two");
}

#[test]
fn extents_of_text() {
    assert!(matches!(text_extent(true, true), Ok(ExtentBox::Union)));
    assert!(matches!(text_extent(true, false), Ok(ExtentBox::Start)));
    assert!(matches!(text_extent(false, true), Ok(ExtentBox::End)));
    assert!(matches!(text_extent(false, false), Err(TsfError::NoLayout)));
    assert_eq!(extent_end(9, 5), 5);
    assert_eq!(extent_end(5, 9), 5);
}

#[test]
fn composing_makes_the_keyboard_the_owner() {
    let mut seat = SeatInfo::new(SeatName(1), true);
    seat.new_keyboard();
    seat.set_keymap(KeyEventsState::new(indices(), true));
    let mut field = Field::new("", 0, 0);
    let event = press(0, KbKey::Unidentified);
    seat.handle_key_press(compose_key(), false, ComposeAnswer::Composing, &event, &mut field);
    assert_eq!(seat.text_field_owner, TextFieldOwner::Keyboard);
    assert_eq!(field.text, "·");
    let typed = KeyEvent::for_test(mods(0), "x");
    let handled =
        seat.handle_key_press(plain("x"), false, ComposeAnswer::Cancelled, &typed, &mut field);
    assert_eq!(handled, KeyboardHandled::UpdatedReleasingCompose);
    assert_eq!(seat.text_field_owner, TextFieldOwner::Neither);
    assert_eq!(field.text, "x");
}
