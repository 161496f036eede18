//! Typing without an input method: what a key press asks of a text field.

use vstd::prelude::*;

use crate::keyboard::{KbKey, KeyEvent, Modifiers};
use crate::strings;
use crate::text::{
    Action, Direction, InputHandler, InputOp, Movement, Selection, TextFieldToken, VerticalMovement,
};

verus! {

/// What a key press did to the ongoing composition.
pub enum CompositionResult<'a> {
    /// Composition had no effect, either because composition remained
    /// non-ongoing, or the key was an ignored modifier
    NoComposition,
    /// The composition ended without a result. The text is what stays in the document.
    Cancelled(&'a str),
    /// The composition goes on, and shows this text.
    Updated {
        text: &'a str,
        just_started: bool,
    },
    /// The composition ended, and this is its result.
    Finished(&'a str),
}

/// What a key press did to the ongoing composition, with the texts as characters.
pub ghost enum Outcome {
    NoComposition,
    Cancelled(Seq<char>),
    Updated { text: Seq<char>, just_started: bool },
    Finished(Seq<char>),
}

impl<'a> View for CompositionResult<'a> {
    type V = Outcome;

    open spec fn view(&self) -> Outcome {
        match *self {
            CompositionResult::NoComposition => Outcome::NoComposition,
            CompositionResult::Cancelled(text) => Outcome::Cancelled(text@),
            CompositionResult::Updated { text, just_started } => Outcome::Updated {
                text: text@,
                just_started,
            },
            CompositionResult::Finished(text) => Outcome::Finished(text@),
        }
    }
}

/// The movement that an arrow or a paging key asks for.
pub open spec fn movement_of(event: KeyEvent) -> Option<Movement> {
    let ctrl = event.mods.has(Modifiers::CONTROL);
    match event.key {
        KbKey::ArrowLeft => Some(
            if ctrl {
                Movement::Word(Direction::Left)
            } else {
                Movement::Grapheme(Direction::Left)
            },
        ),
        KbKey::ArrowRight => Some(
            if ctrl {
                Movement::Word(Direction::Right)
            } else {
                Movement::Grapheme(Direction::Right)
            },
        ),
        KbKey::ArrowUp => Some(Movement::Vertical(VerticalMovement::LineUp)),
        KbKey::ArrowDown => Some(Movement::Vertical(VerticalMovement::LineDown)),
        KbKey::PageUp => Some(Movement::Vertical(VerticalMovement::PageUp)),
        KbKey::PageDown => Some(Movement::Vertical(VerticalMovement::PageDown)),
        KbKey::Home => Some(
            if ctrl {
                Movement::Vertical(VerticalMovement::DocumentStart)
            } else {
                Movement::Line(Direction::Upstream)
            },
        ),
        KbKey::End => Some(
            if ctrl {
                Movement::Vertical(VerticalMovement::DocumentEnd)
            } else {
                Movement::Line(Direction::Downstream)
            },
        ),
        _ => None,
    }
}

/// The range that a deleting key removes.
pub open spec fn deletion_of(event: KeyEvent) -> Option<Movement> {
    let ctrl = event.mods.has(Modifiers::CONTROL);
    match event.key {
        KbKey::Backspace => Some(
            if ctrl {
                Movement::Word(Direction::Upstream)
            } else {
                Movement::Grapheme(Direction::Upstream)
            },
        ),
        KbKey::Delete => Some(
            if ctrl {
                Movement::Word(Direction::Downstream)
            } else {
                Movement::Grapheme(Direction::Downstream)
            },
        ),
        _ => None,
    }
}

/// The action that a key which types no text asks for.
pub open spec fn action_of(event: KeyEvent) -> Option<Action> {
    let shift = event.mods.has(Modifiers::SHIFT);
    match (movement_of(event), deletion_of(event)) {
        (Some(movement), _) => Some(
            if shift {
                Action::MoveSelecting(movement)
            } else {
                Action::Move(movement)
            },
        ),
        (None, Some(movement)) => Some(Action::Delete(movement)),
        (None, None) => match event.key {
            KbKey::Enter => Some(
                Action::InsertNewLine { ignore_hotkey: false, newline_type: '\n' },
            ),
            KbKey::Tab => Some(
                if shift {
                    Action::InsertBacktab
                } else {
                    Action::InsertTab { ignore_hotkey: false }
                },
            ),
            _ => None,
        },
    }
}

/// Whether the press types its character: control, meta and alt make a shortcut of it instead.
pub open spec fn types_text(event: KeyEvent) -> bool {
    &&& event.key is Character
    &&& !event.mods.has(Modifiers::CONTROL)
    &&& !event.mods.has(Modifiers::META)
    &&& !event.mods.has(Modifiers::ALT)
}

/// What a press asks of a field whose selection is `selection`; `None` if it asks for nothing.
///
/// Typed text takes the place of the selection, and leaves the caret behind itself.
pub open spec fn requests_for(event: KeyEvent, selection: Selection) -> Option<Seq<InputOp>> {
    if types_text(event) {
        let text = event.key.typed();
        let caret = (selection.low() + strings::byte_len(text)) as usize;
        Some(
            seq![
                InputOp::ReplaceRange(selection.span(), text),
                InputOp::SetSelection(Selection { anchor: caret, active: caret }),
            ],
        )
    } else {
        match action_of(event) {
            Some(action) => Some(seq![InputOp::HandleAction(action)]),
            None => None,
        }
    }
}

/// What `requests_for` asks, as requests that a field may or may not have seen.
pub open spec fn requests_or_none(event: KeyEvent, selection: Selection) -> Seq<InputOp> {
    match requests_for(event, selection) {
        Some(requests) => requests,
        None => Seq::empty(),
    }
}

fn movement_action(shift: bool, movement: Movement) -> (action: Action)
    ensures
        action == (if shift {
            Action::MoveSelecting(movement)
        } else {
            Action::Move(movement)
        }),
{
    if shift {
        Action::MoveSelecting(movement)
    } else {
        Action::Move(movement)
    }
}

fn by_word(word: bool, direction: Direction) -> (movement: Movement)
    ensures
        movement == (if word {
            Movement::Word(direction)
        } else {
            Movement::Grapheme(direction)
        }),
{
    if word {
        Movement::Word(direction)
    } else {
        Movement::Grapheme(direction)
    }
}

/// The action that a key which types no text asks for.
pub fn key_action(event: &KeyEvent) -> (action: Option<Action>)
    ensures
        action == action_of(*event),
{
    let shift = event.mods.shift();
    let ctrl = event.mods.ctrl();
    match &event.key {
        KbKey::ArrowLeft => Some(movement_action(shift, by_word(ctrl, Direction::Left))),
        KbKey::ArrowRight => Some(movement_action(shift, by_word(ctrl, Direction::Right))),
        KbKey::ArrowUp => Some(
            movement_action(shift, Movement::Vertical(VerticalMovement::LineUp)),
        ),
        KbKey::ArrowDown => Some(
            movement_action(shift, Movement::Vertical(VerticalMovement::LineDown)),
        ),
        KbKey::Backspace => Some(Action::Delete(by_word(ctrl, Direction::Upstream))),
        KbKey::Delete => Some(Action::Delete(by_word(ctrl, Direction::Downstream))),
        KbKey::Enter => Some(Action::InsertNewLine { ignore_hotkey: false, newline_type: '\n' }),
        KbKey::Tab => Some(
            if shift {
                Action::InsertBacktab
            } else {
                Action::InsertTab { ignore_hotkey: false }
            },
        ),
        KbKey::Home => {
            let movement = if ctrl {
                Movement::Vertical(VerticalMovement::DocumentStart)
            } else {
                Movement::Line(Direction::Upstream)
            };
            Some(movement_action(shift, movement))
        },
        KbKey::End => {
            let movement = if ctrl {
                Movement::Vertical(VerticalMovement::DocumentEnd)
            } else {
                Movement::Line(Direction::Downstream)
            };
            Some(movement_action(shift, movement))
        },
        KbKey::PageUp => Some(
            movement_action(shift, Movement::Vertical(VerticalMovement::PageUp)),
        ),
        KbKey::PageDown => Some(
            movement_action(shift, Movement::Vertical(VerticalMovement::PageDown)),
        ),
        _ => None,
    }
}

/// Simulate the effect of a single keypress on a text field.
///
/// Returns whether the press asked anything of the field.
pub fn simulate_single_input<H: InputHandler>(event: &KeyEvent, input_handler: &mut H) -> (handled:
    bool)
    requires
        strings::fits_in_memory(event.key.typed()),
    ensures
        handled == (requests_for(*event, old(input_handler).current_selection()) is Some),
        final(input_handler).requests() == old(input_handler).requests() + requests_or_none(
            *event,
            old(input_handler).current_selection(),
        ),
        !handled ==> *final(input_handler) == *old(input_handler),
{
    let plain = !event.mods.ctrl() && !event.mods.meta() && !event.mods.alt();
    if let KbKey::Character(text) = &event.key {
        if plain {
            let selection = input_handler.selection();
            let length: usize = strings::len_in_bytes(text.as_str());
            let caret: usize = selection.min() + length;
            input_handler.replace_range(selection.range(), text.as_str());
            input_handler.set_selection(Selection::caret(caret));
            return true;
        }
    }
    match key_action(event) {
        Some(action) => {
            input_handler.handle_action(action);
            true
        },
        None => false,
    }
}

/// What happens to a field when a composition ends with the composed range holding `text`: the
/// composed range is overwritten, and the press that ended it is typed after that.
pub open spec fn cancelled_then_typed<H: InputHandler>(
    before: H,
    after: H,
    text: Seq<char>,
    event: KeyEvent,
) -> bool {
    exists|between: H|
        {
            &&& #[trigger] between.requests() == before.requests().push(
                InputOp::ReplaceRange(before.current_composition()->0, text),
            )
            &&& after.requests() == between.requests() + requests_or_none(
                event,
                between.current_selection(),
            )
        }
}

/// The range that an updated composition overwrites.
pub open spec fn composed_over<H: InputHandler>(
    before: H,
    just_started: bool,
) -> std::ops::Range<usize> {
    if just_started {
        before.current_selection().span()
    } else {
        before.current_composition()->0
    }
}

/// A composition that goes on or ends needs the range that an earlier press set.
pub open spec fn can_compose<H: InputHandler>(field: H, composition: Outcome) -> bool {
    match composition {
        Outcome::NoComposition => true,
        Outcome::Updated { text, just_started } => {
            &&& strings::fits_in_memory(text)
            &&& just_started || field.current_composition() is Some
        },
        Outcome::Cancelled(_) | Outcome::Finished(_) => field.current_composition() is Some,
    }
}

/// What a press asks of a field, once it is known what it did to the composition.
pub open spec fn composed<H: InputHandler>(
    before: H,
    after: H,
    event: KeyEvent,
    composition: Outcome,
    handled: bool,
) -> bool {
    match composition {
        Outcome::NoComposition => {
            &&& handled == (requests_for(event, before.current_selection()) is Some)
            &&& after.requests() == before.requests() + requests_or_none(
                event,
                before.current_selection(),
            )
        },
        Outcome::Cancelled(text) => {
            &&& handled
            &&& cancelled_then_typed(before, after, text, event)
        },
        Outcome::Updated { text, just_started } => {
            let over = composed_over(before, just_started);
            let shown = std::ops::Range {
                start: over.start,
                end: (over.start + strings::byte_len(text)) as usize,
            };
            &&& handled
            &&& after.requests() == before.requests().push(InputOp::ReplaceRange(over, text)).push(
                InputOp::SetCompositionRange(Some(shown)),
            )
        },
        Outcome::Finished(text) => {
            &&& handled
            &&& after.requests() == before.requests().push(
                InputOp::ReplaceRange(before.current_composition()->0, text),
            )
        },
    }
}

/// Implements the "application facing" side of composition and dead keys.
///
/// Returns whether the text field was asked to change.
///
/// When using Wayland and X11, dead keys and compose are implemented as
/// a transformation which converts a sequence of keypresses into a resulting
/// string. While a sequence is under way, the field shows it as its composition range:
///
/// - If composition was not ongoing or started by this key press, the press is typed as normal.
/// - Otherwise the composed range (or, for a new composition, the selection) is overwritten with
///   what the sequence shows, and the composition range covers that.
/// - If the press finished the composition, the composed range is overwritten with the result.
/// - If the press cancelled the composition, the sequence stays as text, and the press is then
///   typed as normal.
pub fn simulate_compose<H: InputHandler>(
    input_handler: &mut H,
    event: &KeyEvent,
    composition: CompositionResult<'_>,
) -> (handled: bool)
    requires
        strings::fits_in_memory(event.key.typed()),
        can_compose(*old(input_handler), composition@),
    ensures
        composed(*old(input_handler), *final(input_handler), *event, composition@, handled),
{
    match composition {
        CompositionResult::NoComposition => simulate_single_input(event, input_handler),
        CompositionResult::Cancelled(text) => {
            let range = input_handler.composition_range().unwrap();
            input_handler.replace_range(range, text);
            let ghost between = *input_handler;
            let _ = simulate_single_input(event, input_handler);
            assert(between.requests() == old(input_handler).requests().push(
                InputOp::ReplaceRange(old(input_handler).current_composition()->0, text@),
            ));
            true
        },
        CompositionResult::Updated { text, just_started } => {
            let range = if just_started {
                input_handler.selection().range()
            } else {
                input_handler.composition_range().unwrap()
            };
            let start: usize = range.start;
            let length: usize = strings::len_in_bytes(text);
            input_handler.replace_range(range, text);
            input_handler.set_composition_range(Some(start..start + length));
            true
        },
        CompositionResult::Finished(text) => {
            let range = input_handler.composition_range().unwrap();
            input_handler.replace_range(range, text);
            true
        },
    }
}

/// Types a key press into the focused text field, if there is one.
///
/// This circumvents the platform, and so can't work with important features
/// like input method editors. Without a focused field nothing happens.
pub fn simulate_input<H: InputHandler>(
    token: Option<TextFieldToken>,
    event: &KeyEvent,
    input_handler: &mut H,
) -> (handled: bool)
    requires
        strings::fits_in_memory(event.key.typed()),
    ensures
        token is None ==> !handled && *final(input_handler) == *old(input_handler),
        token is Some ==> {
            &&& handled == (requests_for(*event, old(input_handler).current_selection()) is Some)
            &&& final(input_handler).requests() == old(input_handler).requests() + requests_or_none(
                *event,
                old(input_handler).current_selection(),
            )
        },
{
    match token {
        None => false,
        Some(_) => simulate_single_input(event, input_handler),
    }
}

/// How far a movement reaches: within a line, or from line to line.
pub ghost enum Reach {
    Grapheme,
    Word,
    Line,
    Lines,
    Page,
    Document,
}

/// How far a movement reaches, if it is one that keys ask for.
pub open spec fn reach(movement: Movement) -> Option<Reach> {
    match movement {
        Movement::Grapheme(_) => Some(Reach::Grapheme),
        Movement::Word(_) => Some(Reach::Word),
        Movement::Line(_) => Some(Reach::Line),
        Movement::Vertical(VerticalMovement::LineUp | VerticalMovement::LineDown) => Some(
            Reach::Lines,
        ),
        Movement::Vertical(VerticalMovement::PageUp | VerticalMovement::PageDown) => Some(
            Reach::Page,
        ),
        Movement::Vertical(VerticalMovement::DocumentStart | VerticalMovement::DocumentEnd) => Some(
            Reach::Document,
        ),
        _ => None,
    }
}

/// The movement that goes as far the other way.
pub open spec fn opposite(movement: Movement) -> Movement {
    match movement {
        Movement::Grapheme(direction) => Movement::Grapheme(opposite_direction(direction)),
        Movement::Word(direction) => Movement::Word(opposite_direction(direction)),
        Movement::Line(direction) => Movement::Line(opposite_direction(direction)),
        Movement::ParagraphStart => Movement::ParagraphEnd,
        Movement::ParagraphEnd => Movement::ParagraphStart,
        Movement::Vertical(vertical) => Movement::Vertical(
            match vertical {
                VerticalMovement::LineUp => VerticalMovement::LineDown,
                VerticalMovement::LineDown => VerticalMovement::LineUp,
                VerticalMovement::PageUp => VerticalMovement::PageDown,
                VerticalMovement::PageDown => VerticalMovement::PageUp,
                VerticalMovement::DocumentStart => VerticalMovement::DocumentEnd,
                VerticalMovement::DocumentEnd => VerticalMovement::DocumentStart,
            },
        ),
    }
}

/// The other direction.
pub open spec fn opposite_direction(direction: Direction) -> Direction {
    match direction {
        Direction::Left => Direction::Right,
        Direction::Right => Direction::Left,
        Direction::Upstream => Direction::Downstream,
        Direction::Downstream => Direction::Upstream,
    }
}

/// Whether a movement goes towards the start of the text, or to the left.
pub open spec fn goes_back(movement: Movement) -> bool {
    match movement {
        Movement::Grapheme(direction) | Movement::Word(direction) | Movement::Line(direction) =>
        direction == Direction::Left || direction == Direction::Upstream,
        Movement::ParagraphStart => true,
        Movement::ParagraphEnd => false,
        Movement::Vertical(vertical) => vertical == VerticalMovement::LineUp || vertical
            == VerticalMovement::PageUp || vertical == VerticalMovement::DocumentStart,
    }
}

/// Whether a movement goes by what is seen: to the left or to the right.
pub open spec fn is_visual(movement: Movement) -> bool {
    match movement {
        Movement::Grapheme(direction) | Movement::Word(direction) | Movement::Line(direction) =>
        direction == Direction::Left || direction == Direction::Right,
        _ => false,
    }
}

/// The movement that an action makes or deletes over.
pub open spec fn movement_in(action: Action) -> Option<Movement> {
    match action {
        Action::Move(movement) | Action::MoveSelecting(movement) | Action::Delete(movement) => Some(
            movement,
        ),
        _ => None,
    }
}

/// Two keys that go opposite ways.
pub open spec fn are_opposite(back: KbKey, forth: KbKey) -> bool {
    ||| back is ArrowLeft && forth is ArrowRight
    ||| back is ArrowUp && forth is ArrowDown
    ||| back is PageUp && forth is PageDown
    ||| back is Home && forth is End
    ||| back is Backspace && forth is Delete
}

/// Opposite keys, with the same modifiers held, ask for the same thing in opposite directions; the
/// first of the two always goes back and the other forth, whatever is held.
pub proof fn law_opposite_keys_go_opposite_ways(back: KeyEvent, forth: KeyEvent)
    requires
        are_opposite(back.key, forth.key),
        back.mods == forth.mods,
    ensures
        action_of(back) is Some && action_of(forth) is Some,
        movement_in(action_of(back)->0) is Some,
        goes_back(movement_in(action_of(back)->0)->0),
        !goes_back(movement_in(action_of(forth)->0)->0),
        movement_in(action_of(forth)->0) == Some(opposite(movement_in(action_of(back)->0)->0)),
        action_of(back)->0 is Delete == (back.key is Backspace),
        action_of(forth)->0 is Delete == (back.key is Backspace),
        action_of(back)->0 is MoveSelecting == action_of(forth)->0 is MoveSelecting,
{
}

/// Control only changes how far a key reaches, and never its direction: arrows to the side and
/// deleting keys go by word with it and by grapheme without, and home and end to the ends of the
/// document with it and of the line without. It does not matter to the other keys.
pub proof fn law_control_only_changes_the_reach(plain: KeyEvent, held: KeyEvent)
    requires
        plain.key == held.key,
        !plain.mods.has(Modifiers::CONTROL),
        held.mods.has(Modifiers::CONTROL),
        plain.mods.has(Modifiers::SHIFT) == held.mods.has(Modifiers::SHIFT),
    ensures
        action_of(plain) is Some == action_of(held) is Some,
        plain.key is ArrowLeft || plain.key is ArrowRight || plain.key is Backspace
            || plain.key is Delete ==> {
            let short = movement_in(action_of(plain)->0)->0;
            let long = movement_in(action_of(held)->0)->0;
            &&& reach(short) == Some(Reach::Grapheme)
            &&& reach(long) == Some(Reach::Word)
            &&& goes_back(short) == goes_back(long)
            &&& is_visual(short) == (plain.key is ArrowLeft || plain.key is ArrowRight)
            &&& is_visual(long) == is_visual(short)
        },
        plain.key is Home || plain.key is End ==> {
            let short = movement_in(action_of(plain)->0)->0;
            let long = movement_in(action_of(held)->0)->0;
            &&& reach(short) == Some(Reach::Line)
            &&& reach(long) == Some(Reach::Document)
            &&& goes_back(short) == goes_back(long)
            &&& !is_visual(short)
        },
        !(plain.key is ArrowLeft || plain.key is ArrowRight || plain.key is Backspace
            || plain.key is Delete || plain.key is Home || plain.key is End) ==> action_of(plain)
            == action_of(held),
{
}

/// Arrows up and down go by a line, and the paging keys by a page.
pub proof fn law_vertical_keys_keep_their_reach(event: KeyEvent)
    ensures
        event.key is ArrowUp || event.key is ArrowDown ==> reach(
            movement_in(action_of(event)->0)->0,
        ) == Some(Reach::Lines),
        event.key is PageUp || event.key is PageDown ==> reach(movement_in(action_of(event)->0)->0)
            == Some(Reach::Page),
{
}

/// Shift makes a movement select what it goes over, and a tab go back. It changes nothing else.
pub proof fn law_shift_only_selects(plain: KeyEvent, held: KeyEvent)
    requires
        plain.key == held.key,
        !plain.mods.has(Modifiers::SHIFT),
        held.mods.has(Modifiers::SHIFT),
        plain.mods.has(Modifiers::CONTROL) == held.mods.has(Modifiers::CONTROL),
    ensures
        match action_of(plain) {
            Some(Action::Move(movement)) => action_of(held) == Some(
                Action::MoveSelecting(movement),
            ),
            Some(Action::InsertTab { ignore_hotkey }) => !ignore_hotkey && action_of(held) == Some(
                Action::InsertBacktab,
            ),
            Some(Action::MoveSelecting(_)) | Some(Action::InsertBacktab)
            | Some(Action::SelectAll) => false,
            action => action_of(held) == action,
        },
{
}

/// Only shift and control matter to a key that types no text.
pub proof fn law_other_modifiers_do_not_matter(first: KeyEvent, second: KeyEvent)
    requires
        first.key == second.key,
        first.mods.has(Modifiers::SHIFT) == second.mods.has(Modifiers::SHIFT),
        first.mods.has(Modifiers::CONTROL) == second.mods.has(Modifiers::CONTROL),
    ensures
        action_of(first) == action_of(second),
{
}

/// Enter starts a line and tab inserts a tab, both unless they are a hotkey; no other key inserts
/// anything by way of an action, and keys that type text ask for no action at all.
pub proof fn law_enter_and_tab_insert(event: KeyEvent)
    ensures
        action_of(event) matches Some(Action::InsertNewLine { ignore_hotkey, newline_type })
            ==> event.key is Enter && !ignore_hotkey && newline_type == '\n',
        event.key is Enter ==> action_of(event) is Some && action_of(event)->0 is InsertNewLine,
        event.key is Tab ==> action_of(event) is Some && (action_of(event)->0 is InsertTab
            || action_of(event)->0 is InsertBacktab),
        action_of(event) matches Some(Action::InsertTab { .. }) ==> event.key is Tab,
        action_of(event) == Some(Action::InsertBacktab) ==> event.key is Tab,
        event.key is Character || event.key is Unidentified || event.key is Alt || event.key is F10
            || event.key is Named ==> action_of(event) is None,
{
}

/// Typed text takes the place of the selected text, everything else stays, and the caret is left
/// right behind what was typed. With control, meta or alt held nothing is typed.
pub proof fn law_typing_replaces_the_selection(
    event: KeyEvent,
    text: String,
    selection: Selection,
    before: Seq<u8>,
    selected: Seq<u8>,
    after: Seq<u8>,
)
    requires
        event.key == KbKey::Character(text),
        selection.anchor == before.len() && selection.active == before.len() + selected.len()
            || selection.active == before.len() && selection.anchor == before.len()
            + selected.len(),
        before.len() + selected.len() <= isize::MAX,
        strings::fits_in_memory(text@),
    ensures
        !event.mods.has(Modifiers::CONTROL) && !event.mods.has(Modifiers::META) && !event.mods.has(
            Modifiers::ALT,
        ) ==> {
            let typed = vstd::utf8::encode_utf8(text@);
            &&& requests_for(event, selection) is Some
            &&& crate::text::edited(before + selected + after, requests_for(event, selection)->0) == before
                + typed + after
            &&& requests_for(event, selection)->0.last() matches InputOp::SetSelection(caret)
                && caret.anchor == before.len() + typed.len() && caret.active == caret.anchor
        },
        event.mods.has(Modifiers::CONTROL) || event.mods.has(Modifiers::META) || event.mods.has(
            Modifiers::ALT,
        ) ==> requests_for(event, selection) is None,
{
    let ops = requests_or_none(event, selection);
    if types_text(event) {
        let doc = before + selected + after;
        let one = ops.drop_last();
        assert(one =~= seq![InputOp::ReplaceRange(selection.span(), text@)]);
        assert(one.drop_last() =~= Seq::<InputOp>::empty());
        crate::text::lemma_replaced(before, selected, after, selection.span(), text@);
        reveal_with_fuel(crate::text::edited, 3);
        assert(crate::text::edited(doc, one) == before + vstd::utf8::encode_utf8(text@) + after);
    }
}

/// A key that types no text leaves the text to the field: it asks for one action at most.
pub proof fn law_actions_leave_the_text_to_the_field(
    event: KeyEvent,
    selection: Selection,
    document: Seq<u8>,
)
    requires
        !(event.key is Character),
    ensures
        requests_for(event, selection) is Some == action_of(event) is Some,
        requests_or_none(event, selection).len() <= 1,
        action_of(event) matches Some(action) ==> requests_or_none(event, selection)
            == seq![InputOp::HandleAction(action)],
        crate::text::edited(document, requests_or_none(event, selection)) == document,
{
    reveal_with_fuel(crate::text::edited, 2);
}

/// A composition shows in place of what was selected when it started, each update takes the place
/// of what was shown before, and the range that the field is told of holds just what is shown.
pub proof fn law_composition_is_shown_in_place<H: InputHandler>(
    field: H,
    after_press: H,
    event: KeyEvent,
    text: Seq<char>,
    just_started: bool,
    handled: bool,
    before: Seq<u8>,
    over: Seq<u8>,
    after: Seq<u8>,
)
    requires
        composed(field, after_press, event, Outcome::Updated { text, just_started }, handled),
        strings::fits_in_memory(text),
        before.len() + over.len() <= isize::MAX,
        just_started ==> {
            let selection = field.current_selection();
            ||| selection.anchor == before.len() && selection.active == before.len() + over.len()
            ||| selection.active == before.len() && selection.anchor == before.len() + over.len()
        },
        !just_started ==> (field.current_composition() matches Some(range) && range.start
            == before.len() && range.end == before.len() + over.len()),
    ensures
        handled,
        ({
            let asked = after_press.requests().skip(field.requests().len() as int);
            let shown = before + vstd::utf8::encode_utf8(text) + after;
            &&& crate::text::edited(before + over + after, asked) == shown
            &&& asked.last() matches InputOp::SetCompositionRange(Some(range)) && range.start
                == before.len() && shown.subrange(range.start as int, range.end as int)
                == vstd::utf8::encode_utf8(text)
        }),
{
    let range = composed_over(field, just_started);
    let asked = after_press.requests().skip(field.requests().len() as int);
    let one = seq![InputOp::ReplaceRange(range, text)];
    let shown = std::ops::Range {
        start: range.start,
        end: (range.start + strings::byte_len(text)) as usize,
    };
    assert(asked =~= one.push(InputOp::SetCompositionRange(Some(shown))));
    crate::text::lemma_edited_push(before + over + after, one, InputOp::SetCompositionRange(Some(shown)));
    crate::text::lemma_edited_push(before + over + after, Seq::empty(), one[0]);
    assert(Seq::empty().push(one[0]) =~= one);
    crate::text::lemma_replaced(before, over, after, range, text);
    let doc = before + vstd::utf8::encode_utf8(text) + after;
    assert(doc.subrange(shown.start as int, shown.end as int) =~= vstd::utf8::encode_utf8(text));
}

/// A composition that is finished leaves its result, and nothing of what it showed meanwhile.
pub proof fn law_finished_composition_leaves_its_result<H: InputHandler>(
    field: H,
    after_press: H,
    event: KeyEvent,
    text: Seq<char>,
    handled: bool,
    before: Seq<u8>,
    shown: Seq<u8>,
    after: Seq<u8>,
)
    requires
        composed(field, after_press, event, Outcome::Finished(text), handled),
        field.current_composition() matches Some(range) && range.start == before.len() && range.end
            == before.len() + shown.len(),
    ensures
        handled,
        crate::text::edited(
            before + shown + after,
            after_press.requests().skip(field.requests().len() as int),
        ) == before + vstd::utf8::encode_utf8(text) + after,
{
    let range = field.current_composition()->0;
    let asked = after_press.requests().skip(field.requests().len() as int);
    let op = InputOp::ReplaceRange(range, text);
    assert(asked =~= Seq::empty().push(op));
    crate::text::lemma_edited_push(before + shown + after, Seq::empty(), op);
    crate::text::lemma_replaced(before, shown, after, range, text);
}

/// A composition that is cancelled leaves its text in place of what it showed, before the press
/// that cancelled it is looked at; that press is then typed as if nothing had been composed.
pub proof fn law_cancelled_composition_leaves_its_text<H: InputHandler>(
    field: H,
    after_press: H,
    event: KeyEvent,
    text: Seq<char>,
    handled: bool,
    before: Seq<u8>,
    shown: Seq<u8>,
    after: Seq<u8>,
)
    requires
        composed(field, after_press, event, Outcome::Cancelled(text), handled),
        field.current_composition() matches Some(range) && range.start == before.len() && range.end
            == before.len() + shown.len(),
    ensures
        handled,
        ({
            let asked = after_press.requests().skip(field.requests().len() as int);
            &&& asked.len() >= 1
            &&& crate::text::edited(before + shown + after, asked.take(1)) == before
                + vstd::utf8::encode_utf8(text) + after
            &&& exists|between: H|
                asked.skip(1) == #[trigger] requests_or_none(event, between.current_selection())
        }),
{
    let range = field.current_composition()->0;
    let op = InputOp::ReplaceRange(range, text);
    let between = choose|between: H|
        {
            &&& #[trigger] between.requests() == field.requests().push(op)
            &&& after_press.requests() == between.requests() + requests_or_none(
                event,
                between.current_selection(),
            )
        };
    let asked = after_press.requests().skip(field.requests().len() as int);
    assert(asked =~= seq![op] + requests_or_none(event, between.current_selection()));
    assert(asked.take(1) =~= Seq::empty().push(op));
    assert(asked.skip(1) =~= requests_or_none(event, between.current_selection()));
    crate::text::lemma_edited_push(before + shown + after, Seq::empty(), op);
    crate::text::lemma_replaced(before, shown, after, range, text);
}

} // verus!
