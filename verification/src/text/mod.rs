//! The text input interface between an application and the platform.

use std::ops::Range;

use vstd::prelude::*;

pub mod simulate;

verus! {

/// Names a text field of a window.
#[derive(Clone, Copy, Debug, PartialEq, Eq, Structural, Hash)]
pub struct TextFieldToken(pub u64);

/// A selection in a document. Offsets count bytes.
#[derive(Clone, Copy, Debug, PartialEq, Eq, Structural, Hash)]
pub struct Selection {
    /// The end that stays in place when the selection is extended.
    pub anchor: usize,
    /// The end that moves, where the caret is drawn.
    pub active: usize,
}

impl Selection {
    pub open spec fn low(self) -> usize {
        if self.anchor <= self.active {
            self.anchor
        } else {
            self.active
        }
    }

    pub open spec fn high(self) -> usize {
        if self.anchor <= self.active {
            self.active
        } else {
            self.anchor
        }
    }

    /// The selected bytes.
    pub open spec fn span(self) -> Range<usize> {
        Range { start: self.low(), end: self.high() }
    }

    pub fn new(anchor: usize, active: usize) -> (selection: Selection)
        ensures
            selection == (Selection { anchor, active }),
    {
        Selection { anchor, active }
    }

    /// A selection of nothing at `index`.
    pub fn caret(index: usize) -> (selection: Selection)
        ensures
            selection == (Selection { anchor: index, active: index }),
    {
        Selection { anchor: index, active: index }
    }

    pub fn min(&self) -> (index: usize)
        ensures
            index == self.low(),
    {
        if self.anchor <= self.active {
            self.anchor
        } else {
            self.active
        }
    }

    pub fn max(&self) -> (index: usize)
        ensures
            index == self.high(),
    {
        if self.anchor <= self.active {
            self.active
        } else {
            self.anchor
        }
    }

    pub fn range(&self) -> (range: Range<usize>)
        ensures
            range == self.span(),
    {
        self.min()..self.max()
    }
}

/// A direction along a line.
#[derive(Clone, Copy, Debug, PartialEq, Eq, Structural, Hash)]
pub enum Direction {
    Left,
    Right,
    Upstream,
    Downstream,
}

/// A movement between lines.
#[derive(Clone, Copy, Debug, PartialEq, Eq, Structural, Hash)]
pub enum VerticalMovement {
    LineUp,
    LineDown,
    PageUp,
    PageDown,
    DocumentStart,
    DocumentEnd,
}

/// A movement of the caret.
#[derive(Clone, Copy, Debug, PartialEq, Eq, Structural, Hash)]
pub enum Movement {
    Grapheme(Direction),
    Word(Direction),
    Line(Direction),
    ParagraphStart,
    ParagraphEnd,
    Vertical(VerticalMovement),
}

/// What a text field is asked to do.
#[derive(Clone, Copy, Debug, PartialEq, Eq, Structural, Hash)]
pub enum Action {
    Move(Movement),
    MoveSelecting(Movement),
    SelectAll,
    Delete(Movement),
    InsertNewLine { ignore_hotkey: bool, newline_type: char },
    InsertTab { ignore_hotkey: bool },
    InsertBacktab,
}

/// Which of two lines an offset between them belongs to.
#[derive(Clone, Copy, Debug, PartialEq, Eq, Structural, Hash)]
pub enum Affinity {
    Upstream,
    Downstream,
}

/// What the application changed in a text field.
#[derive(Clone, Copy, Debug, PartialEq, Eq, Structural, Hash)]
pub enum Event {
    /// The selection moved.
    SelectionChanged,
    /// The text or its layout changed.
    LayoutChanged,
    /// Anything may have changed.
    Reset,
}

/// One request made of an [`InputHandler`].
pub ghost enum InputOp {
    ReplaceRange(Range<usize>, Seq<char>),
    SetSelection(Selection),
    SetCompositionRange(Option<Range<usize>>),
    HandleAction(Action),
}

/// Requests that were made of a field, oldest first.
pub type Requests = Seq<InputOp>;

/// Text of a field.
pub type Characters = Seq<char>;

/// A lock on a text field, through which the platform edits it.
///
/// Applications implement this. Nothing is known of how a field reacts to a request: the
/// selection and the composition range read back after one are whatever the application made of
/// it. What the platform side asked for, and in what order, is recorded in `requests`. The functions
/// that only describe a field are never run.
pub trait InputHandler {
    /// The requests made of this field so far, oldest first.
    spec fn requests(&self) -> Requests;

    /// The selection that the field holds now.
    spec fn current_selection(&self) -> Selection;

    /// The range that the field shows as being composed.
    spec fn current_composition(&self) -> Option<Range<usize>>;

    /// The length of the document.
    spec fn document_len(&self) -> usize;

    /// Whether a character starts at this offset, or the document ends there.
    spec fn boundary(&self, index: usize) -> bool;

    /// The text in a range.
    spec fn text_in(&self, range: Range<usize>) -> Characters;

    /// The line around an offset.
    spec fn line_around(&self, index: usize, affinity: Affinity) -> Range<usize>;

    /// The number of UTF-16 units that the text in a range of bytes takes.
    spec fn units_in(&self, range: Range<usize>) -> usize;

    /// The number of bytes that the text in a range of UTF-16 units takes.
    spec fn bytes_in(&self, range: Range<usize>) -> usize;

    /// The selection lies inside of the document, and the document in memory.
    fn selection(&self) -> (selection: Selection)
        ensures
            selection == self.current_selection(),
            selection.high() <= isize::MAX,
    ;

    /// The composed range lies inside of the document.
    fn composition_range(&self) -> (range: Option<Range<usize>>)
        ensures
            range == self.current_composition(),
            range matches Some(r) ==> r.start <= r.end <= isize::MAX,
    ;

    /// The document lies in memory.
    fn len(&self) -> (len: usize)
        ensures
            len == self.document_len(),
            len <= isize::MAX,
    ;

    fn is_char_boundary(&self, index: usize) -> (yes: bool)
        ensures
            yes == self.boundary(index),
    ;

    fn slice(&self, range: Range<usize>) -> (text: String)
        ensures
            text@ == self.text_in(range),
    ;

    fn line_range(&self, index: usize, affinity: Affinity) -> (range: Range<usize>)
        ensures
            range == self.line_around(index, affinity),
            range.start <= range.end <= isize::MAX,
    ;

    fn utf8_to_utf16(&self, range: Range<usize>) -> (units: usize)
        ensures
            units == self.units_in(range),
    ;

    fn utf16_to_utf8(&self, range: Range<usize>) -> (bytes: usize)
        ensures
            bytes == self.bytes_in(range),
    ;

    fn set_selection(&mut self, selection: Selection)
        ensures
            final(self).requests() == old(self).requests().push(InputOp::SetSelection(selection)),
    ;

    fn set_composition_range(&mut self, range: Option<Range<usize>>)
        ensures
            final(self).requests() == old(self).requests().push(
                InputOp::SetCompositionRange(range),
            ),
    ;

    fn replace_range(&mut self, range: Range<usize>, text: &str)
        ensures
            final(self).requests() == old(self).requests().push(
                InputOp::ReplaceRange(range, text@),
            ),
    ;

    fn handle_action(&mut self, action: Action)
        ensures
            final(self).requests() == old(self).requests().push(InputOp::HandleAction(action)),
    ;
}

/// The bytes of a document once a request was carried out to the letter.
pub open spec fn bytes_after(bytes: Seq<u8>, op: InputOp) -> Seq<u8> {
    match op {
        InputOp::ReplaceRange(range, text) => bytes.take(range.start as int)
            + vstd::utf8::encode_utf8(text) + bytes.skip(range.end as int),
        _ => bytes,
    }
}

/// The bytes of a document once requests were carried out to the letter, one after the other.
pub open spec fn edited(bytes: Seq<u8>, ops: Seq<InputOp>) -> Seq<u8>
    decreases ops.len(),
{
    if ops.len() == 0 {
        bytes
    } else {
        bytes_after(edited(bytes, ops.drop_last()), ops.last())
    }
}

/// Replacing the middle of a document leaves what is before it and what is after it.
pub proof fn lemma_replaced(
    before: Seq<u8>,
    middle: Seq<u8>,
    after: Seq<u8>,
    range: Range<usize>,
    text: Seq<char>,
)
    requires
        range.start == before.len(),
        range.end == before.len() + middle.len(),
    ensures
        bytes_after(before + middle + after, InputOp::ReplaceRange(range, text)) == before
            + vstd::utf8::encode_utf8(text) + after,
{
    let all = before + middle + after;
    assert(all.take(range.start as int) =~= before);
    assert(all.skip(range.end as int) =~= after);
}

/// Requests are carried out in order.
pub proof fn lemma_edited_push(bytes: Seq<u8>, ops: Seq<InputOp>, op: InputOp)
    ensures
        edited(bytes, ops.push(op)) == bytes_after(edited(bytes, ops), op),
{
    assert(ops.push(op).drop_last() =~= ops);
}

/// No text takes no bytes.
pub proof fn lemma_no_text()
    ensures
        vstd::utf8::encode_utf8(Seq::<char>::empty()) == Seq::<u8>::empty(),
{
    reveal_with_fuel(vstd::utf8::encode_utf8, 2);
}

/// The bytes of two texts in a row are the bytes of the one and then those of the other.
pub proof fn lemma_text_concat(first: Seq<char>, second: Seq<char>)
    ensures
        vstd::utf8::encode_utf8(first + second) == vstd::utf8::encode_utf8(first)
            + vstd::utf8::encode_utf8(second),
    decreases first.len(),
{
    reveal_with_fuel(vstd::utf8::encode_utf8, 2);
    if first.len() == 0 {
        assert(first + second =~= second);
        assert(Seq::<u8>::empty() + vstd::utf8::encode_utf8(second) =~= vstd::utf8::encode_utf8(
            second,
        ));
    } else {
        lemma_text_concat(first.drop_first(), second);
        assert((first + second).drop_first() =~= first.drop_first() + second);
        assert(vstd::utf8::encode_utf8(first + second) =~= vstd::utf8::encode_utf8(first)
            + vstd::utf8::encode_utf8(second));
    }
}

/// The selected bytes lie between the two ends of a selection, whichever way round it was made, and
/// a caret selects nothing.
pub proof fn law_selection_lies_between_its_ends(selection: Selection)
    ensures
        selection.span().start <= selection.span().end,
        selection.span().start + selection.span().end == selection.anchor + selection.active,
        selection.span().start == selection.anchor || selection.span().start == selection.active,
        selection.span() == (Selection {
            anchor: selection.active,
            active: selection.anchor,
        }).span(),
        selection.low() == selection.span().start && selection.high() == selection.span().end,
{
}

/// The field that has the focus once a field is removed.
pub open spec fn focused_without(focused: Option<TextFieldToken>, removed: TextFieldToken) -> Option<
    TextFieldToken,
> {
    if focused == Some(removed) {
        None
    } else {
        focused
    }
}

/// A field that is removed does not have the focus any more. Another field keeps it, and none gets
/// it.
pub proof fn law_removed_fields_lose_the_focus(
    focused: Option<TextFieldToken>,
    removed: TextFieldToken,
    other: TextFieldToken,
)
    ensures
        focused_without(focused, removed) != Some(removed),
        other != removed ==> (focused_without(focused, removed) == Some(other)) == (focused == Some(
            other,
        )),
        focused is None ==> focused_without(focused, removed) is None,
{
}

} // verus!
