//! Text fields for the system's text services.

use std::collections::HashMap;
use std::ops::Range;

use vstd::prelude::*;

use crate::strings;
use crate::text::{Event, InputHandler, InputOp, Selection, TextFieldToken};
use crate::utf16;

verus! {

/// Why a request of the text services was refused.
#[derive(Clone, Copy, Debug, PartialEq, Eq, Structural)]
pub enum TsfError {
    /// An argument is not valid.
    InvalidArgument,
    /// The request makes no sense now.
    Unexpected,
    NotImplemented,
    /// A position lies outside of the text.
    InvalidPosition,
    /// A point lies outside of the text.
    InvalidPoint,
    /// The text has no layout.
    NoLayout,
    /// There is a sink already.
    AdviseLimit,
    /// There is no such sink.
    NoConnection,
    /// The sink does not offer what it has to.
    NoInterface,
}

/// A change of the text, in the positions of the text services.
#[derive(Clone, Copy, Debug, PartialEq, Eq, Structural)]
pub struct TextChange {
    pub start: i32,
    pub old_end: i32,
    pub new_end: i32,
}

/// Which end of a selection moves.
#[derive(Clone, Copy, Debug, PartialEq, Eq, Structural)]
pub enum ActiveEnd {
    Start,
    End,
}

/// A selection, in the positions of the text services.
#[derive(Clone, Copy, Debug, PartialEq, Eq, Structural)]
pub struct AcpSelection {
    pub start: i32,
    pub end: i32,
    pub active_end: ActiveEnd,
}

/// The text that was asked for.
#[derive(Debug)]
pub struct TextReply {
    /// The units of the text. The rest of the buffer is filled with zeros.
    pub units: Vec<u16>,
    /// The position to go on from.
    pub next: i32,
    /// The number of units that the one run of text holds, if runs were asked for.
    pub run: Option<u32>,
}

/// Text cannot be given.
#[derive(Clone, Copy, Debug, PartialEq, Eq, Structural)]
pub struct TextRefusal {
    pub error: TsfError,
    /// The position to go on from.
    pub next: i32,
}

/// Where text was inserted at the selection, or where it would be.
#[derive(Clone, Copy, Debug, PartialEq, Eq, Structural)]
pub struct Insertion {
    pub start: i32,
    pub end: i32,
    /// How the text changed; absent if it was only asked where text would go.
    pub change: Option<TextChange>,
}

/// Text was not inserted. The positions where it would go are reported all the same.
#[derive(Clone, Copy, Debug, PartialEq, Eq, Structural)]
pub struct InsertionRefusal {
    pub error: TsfError,
    pub start: i32,
    pub end: i32,
}

/// Text is inserted without being asked where it went.
pub const INSERT_NOQUERY: u32 = 1;

/// It is only asked where text would go.
pub const INSERT_QUERYONLY: u32 = 2;

/// Positions that the text services use: not negative, but for an end of -1.
pub open spec fn valid_positions(start: i32, end: i32) -> bool {
    start >= 0 && end >= -1
}

/// An end position, with -1 for the end of the text.
pub open spec fn end_position<H: InputHandler>(field: H, end: i32) -> int {
    if end == -1 {
        field.document_len() as int
    } else {
        end as int
    }
}

/// The bytes that lie between two positions.
pub open spec fn bytes_between<H: InputHandler>(field: H, start: i32, end: i32) -> Range<usize> {
    let first = field.bytes_in(Range { start: 0, end: start as usize });
    Range {
        start: first,
        end: (field.bytes_in(
            Range { start: start as usize, end: end_position(field, end) as usize },
        ) + first) as usize,
    }
}

/// The bytes between the positions can be counted.
pub open spec fn countable<H: InputHandler>(field: H, start: i32, end: i32) -> bool {
    &&& valid_positions(start, end)
    &&& field.document_len() <= i32::MAX
    &&& field.bytes_in(Range { start: start as usize, end: end_position(field, end) as usize })
        + field.bytes_in(Range { start: 0, end: start as usize }) <= usize::MAX
}

/// The bytes that lie between two positions. An end of -1 is the end of the text.
pub fn acp_to_range<H: InputHandler>(field: &H, acpstart: i32, acpend: i32) -> (range: Range<usize>)
    requires
        countable(*field, acpstart, acpend),
    ensures
        range == bytes_between(*field, acpstart, acpend),
{
    let mut end_at: usize = 0;
    if acpend == -1 {
        end_at = field.len();
    } else {
        end_at = acpend as usize;
    }
    let start: usize = field.utf16_to_utf8(0..acpstart as usize);
    let end: usize = field.utf16_to_utf8(acpstart as usize..end_at) + start;
    start..end
}

/// The positions around a range of bytes.
pub open spec fn positions_of<H: InputHandler>(field: H, range: Range<usize>) -> (int, int) {
    let start = field.units_in(Range { start: 0, end: range.start });
    (start as int, field.units_in(range) + start)
}

/// The positions around a range of bytes can be counted.
pub open spec fn has_positions<H: InputHandler>(field: H, range: Range<usize>) -> bool {
    positions_of(field, range).1 <= i32::MAX
}

/// The positions around a range of bytes.
pub fn range_to_acp<H: InputHandler>(field: &H, range: Range<usize>) -> (positions: (i32, i32))
    requires
        has_positions(*field, range),
    ensures
        positions.0 == positions_of(*field, range).0,
        positions.1 == positions_of(*field, range).1,
{
    let start: usize = field.utf8_to_utf16(0..range.start);
    let end: usize = field.utf8_to_utf16(range) + start;
    (start as i32, end as i32)
}

/// A text field, as the text services see it.
#[derive(Clone, Copy, Debug, PartialEq, Eq, Structural)]
pub struct TextStore {
    pub view_cookie: u32,
    pub token: TextFieldToken,
    /// The object that asked to be told of changes, by its number.
    pub sink_punk: Option<u64>,
    /// Whether that object can be told.
    pub sink: bool,
    pub sink_mask: u32,
}

impl TextStore {
    /// A text field that nobody asked about yet. Each gets a cookie of its own, until the numbers
    /// wrap.
    pub fn new(token: TextFieldToken, cookies: &mut u32) -> (store: TextStore)
        ensures
            store == (TextStore {
                view_cookie: *old(cookies),
                token,
                sink_punk: None,
                sink: false,
                sink_mask: 0,
            }),
            *final(cookies) == next_cookie(*old(cookies)),
    {
        let view_cookie: u32 = *cookies;
        *cookies = view_cookie.wrapping_add(1);
        TextStore { view_cookie, token, sink_punk: None, sink: false, sink_mask: 0 }
    }

    /// What an object that asks to be told of changes is answered.
    pub open spec fn advised(
        self,
        punk: Option<u64>,
        is_sink: bool,
        converts: bool,
        mask: u32,
    ) -> (TextStore, Result<(), TsfError>) {
        match punk {
            None => (self, Err(TsfError::InvalidArgument)),
            Some(object) => if self.sink_punk == Some(object) {
                (TextStore { sink_mask: mask, ..self }, Ok(()))
            } else if self.sink {
                (self, Err(TsfError::AdviseLimit))
            } else if !is_sink {
                (self, Err(TsfError::InvalidArgument))
            } else {
                (
                    TextStore {
                        sink_mask: mask,
                        sink_punk: Some(object),
                        sink: converts,
                        ..self
                    },
                    if converts {
                        Ok(())
                    } else {
                        Err(TsfError::NoInterface)
                    },
                )
            },
        }
    }

    /// What an object that no longer wants to be told of changes is answered.
    pub open spec fn unadvised(self, punk: Option<u64>) -> (TextStore, Result<(), TsfError>) {
        if self.sink_punk is Some && self.sink_punk == punk {
            (TextStore { sink: false, sink_punk: None, sink_mask: 0, ..self }, Ok(()))
        } else {
            (self, Err(TsfError::NoConnection))
        }
    }

    /// An object asks to be told of changes. `is_sink` says whether it asks for what is offered,
    /// and `converts` whether it can be told that way. There can be only one such object; if it
    /// asks again, it is told of other changes.
    pub fn advise_sink(
        &mut self,
        punk: Option<u64>,
        is_sink: bool,
        converts: bool,
        mask: u32,
    ) -> (result: Result<(), TsfError>)
        ensures
            (*final(self), result) == old(self).advised(punk, is_sink, converts, mask),
    {
        match punk {
            None => Err(TsfError::InvalidArgument),
            Some(object) => {
                if self.sink_punk == Some(object) {
                    self.sink_mask = mask;
                    Ok(())
                } else if self.sink {
                    Err(TsfError::AdviseLimit)
                } else if is_sink {
                    self.sink_mask = mask;
                    self.sink_punk = Some(object);
                    if converts {
                        self.sink = true;
                        Ok(())
                    } else {
                        Err(TsfError::NoInterface)
                    }
                } else {
                    Err(TsfError::InvalidArgument)
                }
            },
        }
    }

    /// An object no longer wants to be told of changes.
    pub fn unadvise_sink(&mut self, punk: Option<u64>) -> (result: Result<(), TsfError>)
        ensures
            (*final(self), result) == old(self).unadvised(punk),
    {
        if self.sink_punk.is_some() && self.sink_punk == punk {
            self.sink = false;
            self.sink_punk = None;
            self.sink_mask = 0;
            Ok(())
        } else {
            Err(TsfError::NoConnection)
        }
    }

    /// The text services ask for a lock on the text. It is granted at once, while the request is
    /// being answered; only the object that asked to be told of changes can ask for one.
    pub fn request_lock(&self, flags: u32) -> (call: SinkCall)
        requires
            self.sink,
        ensures
            call == SinkCall::LockGranted(flags),
    {
        SinkCall::LockGranted(flags)
    }
}

/// The positions between which text can be inserted, of two that were asked about: those very
/// positions.
pub fn query_insert(acpteststart: i32, acptestend: i32) -> (positions: (i32, i32))
    ensures
        positions == (acpteststart, acptestend),
{
    (acpteststart, acptestend)
}

/// An object that asked to be told, and then no longer wants to be, leaves the field as it was. In
/// between no other object can ask.
pub proof fn law_unadvise_undoes_advise(store: TextStore, object: u64, other: u64, mask: u32)
    requires
        store.sink_punk is None,
        !store.sink,
        store.sink_mask == 0,
        other != object,
    ensures
        ({
            let advised = store.advised(Some(object), true, true, mask).0;
            &&& store.advised(Some(object), true, true, mask).1 is Ok
            &&& advised.advised(Some(other), true, true, mask) == (
                advised,
                Err::<(), TsfError>(TsfError::AdviseLimit),
            )
            &&& advised.unadvised(Some(other)) == (
                advised,
                Err::<(), TsfError>(TsfError::NoConnection),
            )
            &&& advised.unadvised(Some(object)) == (store, Ok::<(), TsfError>(()))
        }),
{
}

/// Which end of a selection moves.
pub open spec fn moving_end(selection: Selection) -> ActiveEnd {
    if selection.active >= selection.anchor {
        ActiveEnd::End
    } else {
        ActiveEnd::Start
    }
}

/// The selection of a range that moves at one of its ends.
pub open spec fn selection_over(range: Range<usize>, active_end: ActiveEnd) -> Selection {
    if active_end == ActiveEnd::End {
        Selection { anchor: range.start, active: range.end }
    } else {
        Selection { anchor: range.end, active: range.start }
    }
}

/// The selection of a field. Only the first one can be asked for, as 0 or as the default.
pub fn get_selection<H: InputHandler>(field: &H, index: u32) -> (result: Result<AcpSelection, TsfError>)
    requires
        has_positions(*field, field.current_selection().span()),
    ensures
        selection_was_read(*field, index, result),
{
    if index != 0xffff_ffff && index != 0 {
        return Err(TsfError::InvalidArgument);
    }
    let selection = field.selection();
    let (start, end) = range_to_acp(field, selection.range());
    let active_end = if selection.active >= selection.anchor {
        ActiveEnd::End
    } else {
        ActiveEnd::Start
    };
    Ok(AcpSelection { start, end, active_end })
}

/// Sets the selection of a field to the first of those that are given.
pub fn set_selection<H: InputHandler>(field: &mut H, selections: &[AcpSelection])
    requires
        selections@.len() > 0 ==> countable(*old(field), selections@[0].start, selections@[0].end),
    ensures
        selections@.len() == 0 ==> *final(field) == *old(field),
        final(field).requests() == old(field).requests() + selecting(*old(field), selections@),
{
    if selections.len() > 0 {
        let first = selections[0];
        let range = acp_to_range(&*field, first.start, first.end);
        let selection = if first.active_end == ActiveEnd::End {
            Selection::new(range.start, range.end)
        } else {
            Selection::new(range.end, range.start)
        };
        field.set_selection(selection);
        assert(field.requests() =~= old(field).requests() + selecting(*old(field), selections@));
    }
    assert(selections@.len() == 0 ==> field.requests() =~= old(field).requests() + selecting(
        *old(field),
        selections@,
    ));
}

/// The last position that is asked for, of a text that goes into a buffer.
pub open spec fn asked_end(start: i32, end: i32, capacity: u32) -> int {
    let last = start + capacity - 1;
    if last <= end {
        last
    } else {
        end as int
    }
}

/// The number of bytes of the text that go into the buffer.
pub open spec fn asked_bytes<H: InputHandler>(field: H, start: i32, end: i32, capacity: u32) -> int {
    let asked = bytes_between(field, start, asked_end(start, end, capacity) as i32);
    let last = if asked.end <= field.document_len() {
        asked.end
    } else {
        field.document_len()
    };
    if asked.start <= last {
        last - asked.start
    } else {
        0
    }
}

/// The text that goes into the buffer.
pub open spec fn asked_text<H: InputHandler>(field: H, start: i32, end: i32, capacity: u32) -> Seq<char> {
    let text = field.text_in(bytes_between(field, start, end));
    vstd::utf8::decode_utf8(
        vstd::utf8::encode_utf8(text).take(asked_bytes(field, start, end, capacity)),
    )
}

/// The whole length of the text, as a position.
pub open spec fn end_of_text<H: InputHandler>(field: H) -> int {
    positions_of(field, Range { start: 0, end: field.document_len() }).1
}

/// Positions that lie inside of the text.
pub open spec fn inside<H: InputHandler>(field: H, start: i32, end: i32) -> bool {
    start < end_of_text(field) && end < end_of_text(field)
}

/// Text that can be asked for: the part that goes into the buffer is made of whole characters, and
/// fits.
pub open spec fn can_be_asked<H: InputHandler>(field: H, start: i32, end: i32, capacity: u32) -> bool {
    let bytes = vstd::utf8::encode_utf8(field.text_in(bytes_between(field, start, end)));
    let asked = asked_bytes(field, start, end, capacity);
    &&& countable(field, start, end)
    &&& capacity <= i32::MAX
    &&& capacity > 0 ==> {
        &&& start + capacity - 1 <= i32::MAX
        &&& countable(field, start, asked_end(start, end, capacity) as i32)
        &&& vstd::utf8::is_char_boundary(bytes, asked)
        &&& utf16::unit_len(asked_text(field, start, end, capacity)) <= capacity
    }
}

/// The length that is reported of the one run of text. An end before the start wraps around.
pub open spec fn run_length(start: i32, end: i32) -> u32 {
    if end >= start {
        (end - start) as u32
    } else {
        (end - start + 0x1_0000_0000) as u32
    }
}

/// The text between two positions, as far as it goes into a buffer of `capacity` units. If they do
/// not lie inside of the text, it is refused, and no unit written.
pub fn get_text<H: InputHandler>(
    field: &H,
    acpstart: i32,
    acpend: i32,
    capacity: u32,
    wants_run: bool,
) -> (result: Result<TextReply, TextRefusal>)
    requires
        has_positions(*field, Range { start: 0, end: field.document_len() }),
        inside(*field, acpstart, acpend) ==> can_be_asked(*field, acpstart, acpend, capacity),
    ensures
        text_was_read(*field, acpstart, acpend, capacity, wants_run, result),
{
    let (_, acp_len) = range_to_acp(field, 0..field.len());
    if acpstart >= acp_len || acpend >= acp_len {
        return Err(TextRefusal { error: TsfError::InvalidPosition, next: acpstart });
    }
    let range = acp_to_range(field, acpstart, acpend);
    let mut units: Vec<u16> = Vec::new();
    let mut next: i32 = acpend;
    if capacity > 0 {
        let wide: i64 = acpstart as i64 + capacity as i64 - 1;
        let last: i32 = if wide <= acpend as i64 {
            wide as i32
        } else {
            acpend
        };
        let asked = acp_to_range(field, acpstart, last);
        let end: usize = if asked.end <= field.len() {
            asked.end
        } else {
            field.len()
        };
        let count: usize = if asked.start <= end {
            end - asked.start
        } else {
            0
        };
        let text = field.slice(range);
        let (part, _) = text.as_str().split_at(count);
        proof {
            let bytes = vstd::utf8::encode_utf8(text@);
            assert(vstd::utf8::encode_utf8(part@) =~= bytes.take(count as int));
            vstd::utf8::encode_utf8_decode_utf8(part@);
            utf16::law_unit_len_bounds(part@);
        }
        units = utf16::encode(part);
        next = units.len() as i32;
    }
    let run = if wants_run {
        let distance: i64 = acpend as i64 - acpstart as i64;
        if distance >= 0 {
            Some(distance as u32)
        } else {
            Some((distance + 0x1_0000_0000) as u32)
        }
    } else {
        None
    };
    Ok(TextReply { units, next, run })
}

/// What replacing the text between two positions comes to.
pub open spec fn text_was_set<H: InputHandler>(
    before: H,
    after: H,
    acpstart: i32,
    acpend: i32,
    units: Seq<u16>,
    result: Result<TextChange, TsfError>,
) -> bool {
    match utf16::decoded(units) {
        None => result == Err::<TextChange, TsfError>(TsfError::Unexpected) && after == before,
        Some(text) => {
            &&& result == Ok::<TextChange, TsfError>(
                TextChange {
                    start: acpstart,
                    old_end: acpend,
                    new_end: (acpstart + units.len()) as i32,
                },
            )
            &&& after.requests() == before.requests().push(
                InputOp::ReplaceRange(bytes_between(before, acpstart, acpend), text),
            )
        },
    }
}

/// Replaces the text between two positions with the text that `units` stand for.
pub fn set_text<H: InputHandler>(field: &mut H, acpstart: i32, acpend: i32, units: &[u16]) -> (result:
    Result<TextChange, TsfError>)
    requires
        countable(*old(field), acpstart, acpend),
        acpstart + units@.len() <= i32::MAX,
    ensures
        text_was_set(*old(field), *final(field), acpstart, acpend, units@, result),
{
    match utf16::decode(units) {
        Some(text) => {
            let range = acp_to_range(&*field, acpstart, acpend);
            field.replace_range(range, text.as_str());
            Ok(
                TextChange {
                    start: acpstart,
                    old_end: acpend,
                    new_end: acpstart + units.len() as i32,
                },
            )
        },
        None => Err(TsfError::Unexpected),
    }
}

/// Where text that replaces the selection is reported to go.
pub open spec fn insertion_at<H: InputHandler>(field: H, count: int, start: i32, end: i32) -> bool {
    let positions = positions_of(field, field.current_selection().span());
    start == positions.0 && end == positions.1 + count
}

/// What replacing the selection comes to.
pub open spec fn text_was_inserted<H: InputHandler>(
    before: H,
    after: H,
    flags: u32,
    units: Seq<u16>,
    result: Result<Insertion, InsertionRefusal>,
) -> bool {
    let count = units.len() as int;
    if flags == 0 || flags == INSERT_NOQUERY {
        let span = before.current_selection().span();
        match utf16::decoded(units) {
            None => {
                &&& after == before
                &&& result matches Err(refusal) && refusal.error == TsfError::Unexpected
                    && insertion_at(before, count, refusal.start, refusal.end)
            },
            Some(text) => {
                let end = (span.start + strings::byte_len(text)) as usize;
                &&& after.requests() == before.requests().push(
                    InputOp::ReplaceRange(span, text),
                ).push(InputOp::SetSelection(Selection { anchor: span.start, active: end }))
                &&& result matches Ok(done) && insertion_at(before, count, done.start, done.end)
                    && done.change == Some(
                    TextChange {
                        start: done.start,
                        old_end: positions_of(before, span).1 as i32,
                        new_end: done.end,
                    },
                )
            },
        }
    } else if flags == INSERT_QUERYONLY {
        &&& after == before
        &&& result matches Ok(done) && insertion_at(before, count, done.start, done.end)
            && done.change is None
    } else {
        &&& after == before
        &&& result matches Err(refusal) && refusal.error == TsfError::InvalidArgument
            && insertion_at(before, count, refusal.start, refusal.end)
    }
}

/// Replaces the selection with the text that `units` stand for, and selects it; or only tells where
/// it would go.
pub fn insert_text_at_selection<H: InputHandler>(field: &mut H, flags: u32, units: &[u16]) -> (result:
    Result<Insertion, InsertionRefusal>)
    requires
        has_positions(*old(field), old(field).current_selection().span()),
        positions_of(*old(field), old(field).current_selection().span()).1 + units@.len()
            <= i32::MAX,
        utf16::decoded(units@) matches Some(text) ==> strings::fits_in_memory(text),
    ensures
        text_was_inserted(*old(field), *final(field), flags, units@, result),
{
    let selection = field.selection();
    let (start, old_end) = range_to_acp(&*field, selection.range());
    let end: i32 = old_end + units.len() as i32;
    if flags == 0 || flags == INSERT_NOQUERY {
        match utf16::decode(units) {
            Some(text) => {
                let first: usize = selection.min();
                let length: usize = strings::len_in_bytes(text.as_str());
                field.replace_range(selection.range(), text.as_str());
                field.set_selection(Selection::new(first, first + length));
                Ok(
                    Insertion {
                        start,
                        end,
                        change: Some(TextChange { start, old_end, new_end: end }),
                    },
                )
            },
            None => Err(InsertionRefusal { error: TsfError::Unexpected, start, end }),
        }
    } else if flags == INSERT_QUERYONLY {
        Ok(Insertion { start, end, change: None })
    } else {
        Err(InsertionRefusal { error: TsfError::InvalidArgument, start, end })
    }
}

/// The position at a point, which the field found to be at `index`, inside of the text or not.
pub fn acp_from_point<H: InputHandler>(field: &H, index: usize, is_inside: bool) -> (result: Result<
    i32,
    TsfError,
>)
    requires
        field.units_in(Range { start: 0, end: index }) <= i32::MAX,
    ensures
        result == position_at(*field, index, is_inside),
{
    if is_inside {
        Ok(field.utf8_to_utf16(0..index) as i32)
    } else {
        Err(TsfError::InvalidPoint)
    }
}

/// The position at the end of the text.
pub fn get_end_acp<H: InputHandler>(field: &H) -> (end: i32)
    requires
        field.units_in(Range { start: 0, end: field.document_len() }) <= i32::MAX,
    ensures
        end == field.units_in(Range { start: 0, end: field.document_len() }),
{
    field.utf8_to_utf16(0..field.len()) as i32
}

/// Which bounding boxes make up the extent of a piece of text.
#[derive(Clone, Copy, Debug, PartialEq, Eq, Structural)]
pub enum ExtentBox {
    /// The smallest box around both that of the start and that of the end.
    Union,
    Start,
    End,
}

/// Which bounding boxes make up the extent of a piece of text.
pub open spec fn extent_of(has_start: bool, has_end: bool) -> Result<ExtentBox, TsfError> {
    match (has_start, has_end) {
        (true, true) => Ok::<ExtentBox, TsfError>(ExtentBox::Union),
        (true, false) => Ok(ExtentBox::Start),
        (false, true) => Ok(ExtentBox::End),
        (false, false) => Err(TsfError::NoLayout),
    }
}

/// Which bounding boxes make up the extent of a piece of text: those of its start and its end, as
/// far as there are any.
pub fn text_extent(has_start: bool, has_end: bool) -> (result: Result<ExtentBox, TsfError>)
    ensures
        result == extent_of(has_start, has_end),
{
    if has_start {
        if has_end {
            Ok(ExtentBox::Union)
        } else {
            Ok(ExtentBox::Start)
        }
    } else if has_end {
        Ok(ExtentBox::End)
    } else {
        Err(TsfError::NoLayout)
    }
}

/// The offset at which the extent of a piece of text ends: it covers one line only.
pub fn extent_end(line_end: usize, range_end: usize) -> (end: usize)
    ensures
        end == earlier(line_end, range_end),
{
    if line_end <= range_end {
        line_end
    } else {
        range_end
    }
}

/// A call on the object that asked to be told of changes.
#[derive(Clone, Copy, Debug, PartialEq, Eq, Structural)]
pub enum SinkCall {
    /// The layout of the view with this cookie changed. An error ends the update.
    LayoutChange(u32),
    /// The selection changed. An error ends the update if it `must_succeed`.
    SelectionChange { must_succeed: bool },
    /// The text changed. An error ends the update.
    TextChange,
    /// The text is locked for the object, in the way that these flags say.
    LockGranted(u32),
}

/// The calls that an event leads to.
pub open spec fn calls_for(event: Event, view_cookie: u32) -> Seq<SinkCall> {
    match event {
        Event::LayoutChanged => seq![SinkCall::LayoutChange(view_cookie)],
        Event::SelectionChanged => seq![SinkCall::SelectionChange { must_succeed: false }],
        Event::Reset => seq![
            SinkCall::TextChange,
            SinkCall::SelectionChange { must_succeed: true },
            SinkCall::LayoutChange(view_cookie),
        ],
    }
}

/// The text fields that the text services know of.
pub struct TsfIntegration {
    docs: HashMap<u64, TextStore>,
}

impl View for TsfIntegration {
    type V = Map<u64, TextStore>;

    closed spec fn view(&self) -> Map<u64, TextStore> {
        self.docs@
    }
}

impl TsfIntegration {
    pub fn new() -> (tsf: TsfIntegration)
        ensures
            tsf@ == Map::<u64, TextStore>::empty(),
    {
        TsfIntegration { docs: HashMap::new() }
    }

    /// The text services know of a field from now on.
    pub fn register_text_field(&mut self, store: TextStore)
        ensures
            final(self)@ == old(self)@.insert(store.token.0, store),
    {
        broadcast use vstd::std_specs::hash::group_hash_axioms;

        let _ = self.docs.insert(store.token.0, store);
    }

    /// The text services no longer know of a field.
    pub fn unregister_text_field(&mut self, token: TextFieldToken)
        ensures
            final(self)@ == old(self)@.remove(token.0),
    {
        broadcast use vstd::std_specs::hash::group_hash_axioms;

        let _ = self.docs.remove(&token.0);
        assert(self.docs@ =~= old(self)@.remove(token.0));
    }

    /// Decides whom to tell of an event, and how. Of a field that is not known nobody can be told.
    pub fn update(&self, token: TextFieldToken, event: Event) -> (result: Result<Vec<SinkCall>, TsfError>)
        ensures
            match result {
                Err(error) => error == TsfError::Unexpected && !self@.dom().contains(token.0),
                Ok(calls) => self@.dom().contains(token.0) && calls@ == self@[token.0].told_of(event),
            },
    {
        broadcast use vstd::std_specs::hash::group_hash_axioms;

        match self.docs.get(&token.0) {
            None => Err(TsfError::Unexpected),
            Some(store) => {
                let mut calls: Vec<SinkCall> = Vec::new();
                if store.sink {
                    match event {
                        Event::LayoutChanged => calls.push(
                            SinkCall::LayoutChange(store.view_cookie),
                        ),
                        Event::SelectionChanged => calls.push(
                            SinkCall::SelectionChange { must_succeed: false },
                        ),
                        Event::Reset => {
                            calls.push(SinkCall::TextChange);
                            calls.push(SinkCall::SelectionChange { must_succeed: true });
                            calls.push(SinkCall::LayoutChange(store.view_cookie));
                        },
                    }
                    assert(calls@ =~= calls_for(event, store.view_cookie));
                }
                assert(!store.sink ==> calls@ =~= Seq::empty());
                Ok(calls)
            },
        }
    }

    /// Decides whom to tell that a field was focused: the same as of a changed selection.
    pub fn focus(&self, token: TextFieldToken) -> (result: Result<Vec<SinkCall>, TsfError>)
        ensures
            match result {
                Err(error) => error == TsfError::Unexpected && !self@.dom().contains(token.0),
                Ok(calls) => self@.dom().contains(token.0) && calls@ == self@[token.0].told_of(
                    Event::SelectionChanged,
                ),
            },
    {
        self.update(token, Event::SelectionChanged)
    }
}

/// A field that holds a text: what it tells of bytes and of units is what they are of that text,
/// between any two of its characters.
pub open spec fn holds<H: InputHandler>(field: H, text: Seq<char>) -> bool {
    &&& field.document_len() == strings::byte_len(text)
    &&& forall|i: int, j: int|
        0 <= i <= j <= text.len() ==> #[trigger] field.units_in(byte_range(text, i, j))
            == utf16::unit_len(text.subrange(i, j))
    &&& forall|i: int, j: int|
        0 <= i <= j <= text.len() ==> #[trigger] field.bytes_in(unit_range(text, i, j))
            == strings::byte_len(text.subrange(i, j))
    &&& forall|i: int, j: int|
        0 <= i <= j <= text.len() ==> #[trigger] field.text_in(byte_range(text, i, j))
            == text.subrange(i, j)
}

/// The bytes between two characters of a text.
pub open spec fn byte_range(text: Seq<char>, i: int, j: int) -> Range<usize> {
    Range {
        start: strings::byte_len(text.take(i)) as usize,
        end: strings::byte_len(text.take(j)) as usize,
    }
}

/// The units between two characters of a text.
pub open spec fn unit_range(text: Seq<char>, i: int, j: int) -> Range<usize> {
    Range {
        start: utf16::unit_len(text.take(i)) as usize,
        end: utf16::unit_len(text.take(j)) as usize,
    }
}

proof fn lemma_lengths_add_up(text: Seq<char>, i: int, j: int)
    requires
        0 <= i <= j <= text.len(),
    ensures
        strings::byte_len(text.take(j)) == strings::byte_len(text.take(i)) + strings::byte_len(
            text.subrange(i, j),
        ),
        utf16::unit_len(text.take(j)) == utf16::unit_len(text.take(i)) + utf16::unit_len(
            text.subrange(i, j),
        ),
        strings::byte_len(text) == strings::byte_len(text.take(j)) + strings::byte_len(
            text.skip(j),
        ),
        utf16::unit_len(text) == utf16::unit_len(text.take(j)) + utf16::unit_len(text.skip(j)),
{
    assert(text.take(i) + text.subrange(i, j) =~= text.take(j));
    assert(text.take(j) + text.skip(j) =~= text);
    crate::text::lemma_text_concat(text.take(i), text.subrange(i, j));
    crate::text::lemma_text_concat(text.take(j), text.skip(j));
    utf16::lemma_encoded_concat(text.take(i), text.subrange(i, j));
    utf16::lemma_encoded_concat(text.take(j), text.skip(j));
}

/// Positions and offsets name the same places: the bytes between two positions are those of the
/// characters between them, and the positions around these bytes are the same again.
pub proof fn law_positions_and_bytes_agree<H: InputHandler>(
    field: H,
    text: Seq<char>,
    i: int,
    j: int,
    start: i32,
    end: i32,
)
    requires
        holds(field, text),
        0 <= i <= j <= text.len(),
        strings::byte_len(text) <= i32::MAX,
        utf16::unit_len(text) <= i32::MAX,
        start == utf16::unit_len(text.take(i)),
        end == utf16::unit_len(text.take(j)),
    ensures
        bytes_between(field, start, end) == byte_range(text, i, j),
        positions_of(field, byte_range(text, i, j)) == (start as int, end as int),
        field.text_in(bytes_between(field, start, end)) == text.subrange(i, j),
{
    lemma_lengths_add_up(text, i, j);
    lemma_lengths_add_up(text, 0, i);
    assert(text.take(0) =~= Seq::<char>::empty());
    crate::text::lemma_no_text();
    assert(utf16::unit_len(text.take(0)) == 0);
    assert(text.subrange(0, i) =~= text.take(i));
    assert(byte_range(text, 0, i) == (Range { start: 0, end: byte_range(text, i, j).start }));
    assert(unit_range(text, 0, i) == (Range { start: 0usize, end: start as usize }));
    assert(unit_range(text, i, j) == (Range { start: start as usize, end: end as usize }));
    assert(field.bytes_in(unit_range(text, 0, i)) == strings::byte_len(text.subrange(0, i)));
    assert(field.bytes_in(unit_range(text, i, j)) == strings::byte_len(text.subrange(i, j)));
    assert(field.units_in(byte_range(text, 0, i)) == utf16::unit_len(text.subrange(0, i)));
    assert(field.units_in(byte_range(text, i, j)) == utf16::unit_len(text.subrange(i, j)));
}

/// Setting text replaces the characters between the two positions and no others, and tells how the
/// positions changed: the new text lies between the start and the new end. Units that stand for no
/// text change nothing.
pub proof fn law_set_text_replaces_what_lies_between<H: InputHandler>(
    before: H,
    after: H,
    text: Seq<char>,
    i: int,
    j: int,
    start: i32,
    end: i32,
    new: Seq<char>,
    result: Result<TextChange, TsfError>,
)
    requires
        holds(before, text),
        0 <= i <= j <= text.len(),
        strings::byte_len(text) <= i32::MAX,
        utf16::unit_len(text) + utf16::unit_len(new) <= i32::MAX,
        start == utf16::unit_len(text.take(i)),
        end == utf16::unit_len(text.take(j)),
        text_was_set(before, after, start, end, utf16::encoded(new), result),
    ensures
        crate::text::edited(
            vstd::utf8::encode_utf8(text),
            after.requests().skip(before.requests().len() as int),
        ) == vstd::utf8::encode_utf8(text.take(i) + new + text.skip(j)),
        result matches Ok(change) && change.start == start && change.old_end == end
            && change.new_end == utf16::unit_len(text.take(i) + new),
{
    utf16::law_decode_undoes_encode(new);
    law_positions_and_bytes_agree(before, text, i, j, start, end);
    lemma_lengths_add_up(text, i, j);
    let range = byte_range(text, i, j);
    let op = InputOp::ReplaceRange(range, new);
    assert(after.requests().skip(before.requests().len() as int) =~= Seq::empty().push(op));
    let bytes = vstd::utf8::encode_utf8(text);
    crate::text::lemma_edited_push(bytes, Seq::empty(), op);
    let first = vstd::utf8::encode_utf8(text.take(i));
    let middle = vstd::utf8::encode_utf8(text.subrange(i, j));
    let last = vstd::utf8::encode_utf8(text.skip(j));
    crate::text::lemma_text_concat(text.take(i), text.subrange(i, j));
    crate::text::lemma_text_concat(text.take(j), text.skip(j));
    assert(text.take(i) + text.subrange(i, j) =~= text.take(j));
    assert(text.take(j) + text.skip(j) =~= text);
    crate::text::lemma_replaced(first, middle, last, range, new);
    crate::text::lemma_text_concat(text.take(i), new);
    crate::text::lemma_text_concat(text.take(i) + new, text.skip(j));
    utf16::lemma_encoded_concat(text.take(i), new);
}

/// Inserted text takes the place of the selection, and is selected then; the positions that are
/// reported are those of the selection, the second one moved on by the length of the text. Asking
/// where it would go changes nothing, and is answered the same.
pub proof fn law_inserted_text_replaces_the_selection<H: InputHandler>(
    before: H,
    after: H,
    text: Seq<char>,
    i: int,
    j: int,
    flags: u32,
    new: Seq<char>,
    result: Result<Insertion, InsertionRefusal>,
)
    requires
        holds(before, text),
        0 <= i <= j <= text.len(),
        strings::byte_len(text) + strings::byte_len(new) <= i32::MAX,
        utf16::unit_len(text) + utf16::unit_len(new) <= i32::MAX,
        before.current_selection().span() == byte_range(text, i, j),
        text_was_inserted(before, after, flags, utf16::encoded(new), result),
        flags <= 2,
    ensures
        result matches Ok(done) && {
            &&& done.start == utf16::unit_len(text.take(i))
            &&& done.end == utf16::unit_len(text.take(j)) + utf16::unit_len(new)
            &&& flags == 2 <==> done.change is None
            &&& done.change matches Some(change) ==> change.start == done.start && change.old_end
                == utf16::unit_len(text.take(j)) && change.new_end == done.end
        },
        flags == 2 ==> after == before,
        flags < 2 ==> {
            let asked = after.requests().skip(before.requests().len() as int);
            let bytes = vstd::utf8::encode_utf8(text.take(i) + new + text.skip(j));
            &&& crate::text::edited(vstd::utf8::encode_utf8(text), asked) == bytes
            &&& asked.last() matches InputOp::SetSelection(selection) && bytes.subrange(
                selection.anchor as int,
                selection.active as int,
            ) == vstd::utf8::encode_utf8(new)
        },
{
    utf16::law_decode_undoes_encode(new);
    let start = utf16::unit_len(text.take(i)) as i32;
    let end = utf16::unit_len(text.take(j)) as i32;
    lemma_lengths_add_up(text, i, j);
    law_positions_and_bytes_agree(before, text, i, j, start, end);
    let range = byte_range(text, i, j);
    if flags < 2 {
        let op = InputOp::ReplaceRange(range, new);
        let bytes = vstd::utf8::encode_utf8(text);
        let one = Seq::empty().push(op);
        let first = vstd::utf8::encode_utf8(text.take(i));
        let middle = vstd::utf8::encode_utf8(text.subrange(i, j));
        let last = vstd::utf8::encode_utf8(text.skip(j));
        let fresh = vstd::utf8::encode_utf8(new);
        let select = InputOp::SetSelection(
            Selection { anchor: range.start, active: (range.start + fresh.len()) as usize },
        );
        assert(after.requests().skip(before.requests().len() as int) =~= one.push(select));
        crate::text::lemma_edited_push(bytes, one, select);
        crate::text::lemma_edited_push(bytes, Seq::empty(), op);
        crate::text::lemma_text_concat(text.take(i), text.subrange(i, j));
        crate::text::lemma_text_concat(text.take(j), text.skip(j));
        assert(text.take(i) + text.subrange(i, j) =~= text.take(j));
        assert(text.take(j) + text.skip(j) =~= text);
        crate::text::lemma_replaced(first, middle, last, range, new);
        crate::text::lemma_text_concat(text.take(i), new);
        crate::text::lemma_text_concat(text.take(i) + new, text.skip(j));
        let all = first + fresh + last;
        assert(all.subrange(first.len() as int, (first.len() + fresh.len()) as int) =~= fresh);
    }
}

/// The text that goes into a buffer is the text from the start on: up to the end, or as far as the
/// buffer has room for it, less a zero.
pub proof fn law_text_is_read_from_the_start<H: InputHandler>(
    field: H,
    text: Seq<char>,
    i: int,
    k: int,
    j: int,
    start: i32,
    end: i32,
    capacity: u32,
)
    requires
        holds(field, text),
        0 <= i <= k <= j <= text.len(),
        strings::byte_len(text) <= i32::MAX,
        utf16::unit_len(text) <= i32::MAX,
        0 < capacity <= i32::MAX,
        start == utf16::unit_len(text.take(i)),
        end == utf16::unit_len(text.take(j)),
        start + capacity - 1 <= i32::MAX,
        utf16::unit_len(text.take(k)) == (if start + capacity - 1 <= end {
            start + capacity - 1
        } else {
            end as int
        }),
    ensures
        asked_text(field, start, end, capacity) == text.subrange(i, k),
{
    let last = utf16::unit_len(text.take(k)) as i32;
    law_positions_and_bytes_agree(field, text, i, j, start, end);
    law_positions_and_bytes_agree(field, text, i, k, start, last);
    lemma_lengths_add_up(text, i, k);
    lemma_lengths_add_up(text, k, j);
    let part = text.subrange(i, k);
    let whole = text.subrange(i, j);
    let rest = text.subrange(k, j);
    assert(part + rest =~= whole);
    crate::text::lemma_text_concat(part, rest);
    assert(asked_bytes(field, start, end, capacity) == strings::byte_len(part));
    assert(vstd::utf8::encode_utf8(whole).take(strings::byte_len(part) as int)
        =~= vstd::utf8::encode_utf8(part));
    vstd::utf8::encode_utf8_decode_utf8(part);
}

/// Text is inside only if it ends before the end of the text does.
pub proof fn law_text_outside_is_refused<H: InputHandler>(
    field: H,
    text: Seq<char>,
    start: i32,
    end: i32,
)
    requires
        holds(field, text),
        strings::byte_len(text) <= i32::MAX,
        utf16::unit_len(text) <= i32::MAX,
    ensures
        inside(field, start, end) <==> start < utf16::unit_len(text) && end < utf16::unit_len(text),
        end_of_text(field) == utf16::unit_len(text),
{
    let count = text.len() as int;
    assert(text.take(count) =~= text);
    assert(text.take(0) =~= Seq::<char>::empty());
    crate::text::lemma_no_text();
    let start_of = utf16::unit_len(text.take(0)) as i32;
    law_positions_and_bytes_agree(
        field,
        text,
        0,
        count,
        start_of,
        utf16::unit_len(text) as i32,
    );
    assert(byte_range(text, 0, count) == (Range { start: 0, end: field.document_len() }));
}

/// A selection that was set can be read again: it selects the same range, and moves at the same end,
/// unless it is a caret.
pub proof fn law_selections_are_read_as_they_were_set(range: Range<usize>, active_end: ActiveEnd)
    requires
        range.start <= range.end,
    ensures
        selection_over(range, active_end).span() == range,
        range.start < range.end ==> moving_end(selection_over(range, active_end)) == active_end,
        active_end == ActiveEnd::End ==> selection_over(range, active_end).active == range.end,
{
}

/// Counting a run on from its start comes to its end, in as many bits as it is counted in.
pub proof fn law_runs_lead_to_their_end(start: i32, end: i32)
    ensures
        (start + run_length(start, end) - end) % 0x1_0000_0000 == 0,
        end >= start ==> start + run_length(start, end) == end,
{
}

/// Only the object that is told of changes can change what it is told of; a refused object changes
/// nothing, unless it cannot be told at all.
pub proof fn law_refused_objects_change_nothing(
    store: TextStore,
    punk: Option<u64>,
    is_sink: bool,
    converts: bool,
    mask: u32,
)
    ensures
        ({
            let (after, result) = store.advised(punk, is_sink, converts, mask);
            &&& result is Err && result != Err::<(), TsfError>(TsfError::NoInterface) ==> after
                == store
            &&& result is Ok ==> after.sink_mask == mask && after.sink_punk == punk && punk is Some
            &&& after.token == store.token && after.view_cookie == store.view_cookie
            &&& store.sink ==> (after.sink && after.sink_punk == store.sink_punk)
            &&& punk is None ==> result == Err::<(), TsfError>(TsfError::InvalidArgument)
            &&& store.sink && punk is Some && punk != store.sink_punk ==> result == Err::<
                (),
                TsfError,
            >(TsfError::AdviseLimit)
            &&& !store.sink && punk is Some && punk != store.sink_punk && !is_sink ==> result
                == Err::<(), TsfError>(TsfError::InvalidArgument)
            &&& !store.sink && punk is Some && punk != store.sink_punk && is_sink ==> (
            result is Ok <==> converts) && after.sink == converts
            &&& punk is Some && punk == store.sink_punk ==> result is Ok && after.sink == store.sink
        }),
{
}

/// A changed layout tells of the layout alone, a moved selection of the selection alone, and a reset
/// of everything: first the text, then the selection and then the layout. The layout is told of for
/// the view with its own number.
pub proof fn law_resets_tell_of_everything(event: Event, view_cookie: u32)
    ensures
        ({
            let calls = calls_for(event, view_cookie);
            &&& calls.contains(SinkCall::TextChange) <==> event == Event::Reset
            &&& calls.contains(SinkCall::LayoutChange(view_cookie)) <==> event
                != Event::SelectionChanged
            &&& event == Event::LayoutChanged ==> calls.len() == 1
            &&& event == Event::SelectionChanged ==> calls.len() == 1 && calls[0]
                == (SinkCall::SelectionChange { must_succeed: false })
            &&& event == Event::Reset ==> calls.len() == 3 && calls[0] == SinkCall::TextChange
                && calls[1] == (SinkCall::SelectionChange { must_succeed: true }) && calls[2]
                == SinkCall::LayoutChange(view_cookie)
        }),
{
    let calls = calls_for(event, view_cookie);
    if event == Event::Reset {
        assert(calls[0] == SinkCall::TextChange);
        assert(calls[2] == SinkCall::LayoutChange(view_cookie));
    } else if event == Event::LayoutChanged {
        assert(calls[0] == SinkCall::LayoutChange(view_cookie));
    }
}

/// There is an extent exactly if there is a box, and it takes in every box that there is.
pub proof fn law_extents_take_in_every_box(has_start: bool, has_end: bool)
    ensures
        extent_of(has_start, has_end) is Err <==> !has_start && !has_end,
        extent_of(has_start, has_end) == Ok::<ExtentBox, TsfError>(ExtentBox::Start) <==> has_start
            && !has_end,
        extent_of(has_start, has_end) == Ok::<ExtentBox, TsfError>(ExtentBox::End) <==> has_end
            && !has_start,
        !has_start && !has_end ==> extent_of(has_start, has_end) == Err::<ExtentBox, TsfError>(
            TsfError::NoLayout,
        ),
{
}

/// The cookie after a cookie.
pub open spec fn next_cookie(cookie: u32) -> u32 {
    if cookie == u32::MAX {
        0
    } else {
        (cookie + 1) as u32
    }
}

/// Cookies are counted up, and begin again once they are all used.
pub proof fn law_cookies_are_counted(cookie: u32)
    ensures
        next_cookie(cookie) != cookie,
        next_cookie(cookie) == (cookie + 1) % 0x1_0000_0000,
{
}

/// What is read as the selection that has the number `index`.
pub open spec fn selection_was_read<H: InputHandler>(
    field: H,
    index: u32,
    result: Result<AcpSelection, TsfError>,
) -> bool {
    &&& index != 0 && index != u32::MAX ==> result == Err::<AcpSelection, TsfError>(
        TsfError::InvalidArgument,
    )
    &&& index == 0 || index == u32::MAX ==> {
        let selection = field.current_selection();
        &&& result is Ok
        &&& result->Ok_0.start == positions_of(field, selection.span()).0
        &&& result->Ok_0.end == positions_of(field, selection.span()).1
        &&& result->Ok_0.active_end == moving_end(selection)
    }
}

/// There is one selection, which is also the one to begin with: its ends are in order, counted in
/// units, and the one that moves is where the caret is. Others are refused.
pub proof fn law_one_selection_is_read<H: InputHandler>(
    field: H,
    text: Seq<char>,
    i: int,
    j: int,
    index: u32,
    result: Result<AcpSelection, TsfError>,
)
    requires
        holds(field, text),
        0 <= i <= j <= text.len(),
        utf16::unit_len(text) <= i32::MAX,
        field.current_selection().low() == strings::byte_len(text.take(i)),
        field.current_selection().high() == strings::byte_len(text.take(j)),
        selection_was_read(field, index, result),
    ensures
        (result is Ok) == (index == 0 || index == u32::MAX),
        result matches Ok(selection) ==> selection.start == utf16::unit_len(text.take(i))
            && selection.end == utf16::unit_len(text.take(j)) && (selection.active_end
            == ActiveEnd::End) == (field.current_selection().active
            >= field.current_selection().anchor),
        result matches Err(error) ==> error == TsfError::InvalidArgument,
{
    let span = field.current_selection().span();
    lemma_lengths_add_up(text, 0, i);
    lemma_lengths_add_up(text, i, j);
    assert(text.subrange(0, i) =~= text.take(i));
    assert(text.take(0) =~= Seq::empty());
    vstd::utf8::encode_utf8_decode_utf8(text.take(0));
    assert(span == byte_range(text, i, j));
    let start = Range { start: 0, end: span.start };
    assert(start == byte_range(text, 0, i));
    assert(field.units_in(byte_range(text, 0, i)) == utf16::unit_len(text.take(i)));
    assert(field.units_in(byte_range(text, i, j)) == utf16::unit_len(text.subrange(i, j)));
}

/// What is asked of a field whose selection is set. Only the first of several counts.
pub open spec fn selecting<H: InputHandler>(field: H, selections: Seq<AcpSelection>) -> Seq<InputOp> {
    if selections.len() == 0 {
        Seq::empty()
    } else {
        let range = bytes_between(field, selections[0].start, selections[0].end);
        seq![InputOp::SetSelection(selection_over(range, selections[0].active_end))]
    }
}

/// The first selection that is given is set, over what lies between its ends and with the caret at
/// the end that moves. The text is left alone.
pub proof fn law_first_selection_is_set<H: InputHandler>(
    field: H,
    selections: Seq<AcpSelection>,
    others: Seq<AcpSelection>,
)
    requires
        selections.len() > 0,
    ensures
        selecting(field, Seq::empty()).len() == 0,
        selecting(field, selections).len() == 1,
        selecting(field, selections + others) == selecting(field, selections),
        selecting(field, selections)[0] matches InputOp::SetSelection(selection) && ({
            let range = bytes_between(field, selections[0].start, selections[0].end);
            &&& selections[0].active_end == ActiveEnd::End ==> selection.active == range.end
                && selection.anchor == range.start
            &&& selections[0].active_end != ActiveEnd::End ==> selection.active == range.start
                && selection.anchor == range.end
        }),
{
}

/// What is read of the text between two positions.
pub open spec fn text_was_read<H: InputHandler>(
    field: H,
    acpstart: i32,
    acpend: i32,
    capacity: u32,
    wants_run: bool,
    result: Result<TextReply, TextRefusal>,
) -> bool {
    &&& !inside(field, acpstart, acpend) ==> result == Err::<TextReply, TextRefusal>(
        TextRefusal { error: TsfError::InvalidPosition, next: acpstart },
    )
    &&& inside(field, acpstart, acpend) ==> {
        &&& result is Ok
        &&& result->Ok_0.units@ == if capacity > 0 {
            utf16::encoded(asked_text(field, acpstart, acpend, capacity))
        } else {
            Seq::empty()
        }
        &&& result->Ok_0.next == if capacity > 0 {
            result->Ok_0.units@.len() as int
        } else {
            acpend as int
        }
        &&& result->Ok_0.run == if wants_run {
            Some(run_length(acpstart, acpend))
        } else {
            None
        }
    }
}

/// Text inside of the field is read in units, no more of them than there is room for, and they are
/// counted. A run is told exactly if it is wanted. Text outside is refused.
pub proof fn law_units_are_read_as_far_as_they_fit<H: InputHandler>(
    field: H,
    acpstart: i32,
    acpend: i32,
    capacity: u32,
    wants_run: bool,
    result: Result<TextReply, TextRefusal>,
)
    requires
        inside(field, acpstart, acpend) ==> can_be_asked(field, acpstart, acpend, capacity),
        text_was_read(field, acpstart, acpend, capacity, wants_run, result),
    ensures
        (result is Ok) == (acpstart < end_of_text(field) && acpend < end_of_text(field)),
        result matches Ok(reply) ==> {
            &&& reply.units@.len() <= capacity
            &&& capacity > 0 ==> reply.units@ == utf16::encoded(
                asked_text(field, acpstart, acpend, capacity),
            ) && reply.next == reply.units@.len()
            &&& capacity == 0 ==> reply.next == acpend
            &&& (reply.run is Some) == wants_run
            &&& wants_run && acpend >= acpstart ==> reply.run->0 == acpend - acpstart
        },
        result matches Err(refusal) ==> refusal.next == acpstart && refusal.error
            == TsfError::InvalidPosition,
{
}

/// The position of a point that was found at an index of the text.
pub open spec fn position_at<H: InputHandler>(field: H, index: usize, is_inside: bool) -> Result<
    i32,
    TsfError,
> {
    if is_inside {
        Ok(field.units_in(Range { start: 0, end: index }) as i32)
    } else {
        Err(TsfError::InvalidPoint)
    }
}

/// A point in the text has the position of the character that is there. A point elsewhere has none.
pub proof fn law_points_have_the_position_of_their_text<H: InputHandler>(
    field: H,
    text: Seq<char>,
    i: int,
    index: usize,
)
    requires
        holds(field, text),
        0 <= i <= text.len(),
        utf16::unit_len(text) <= i32::MAX,
        index == strings::byte_len(text.take(i)),
    ensures
        position_at(field, index, true) == Ok::<i32, TsfError>(utf16::unit_len(text.take(i)) as i32),
        position_at(field, index, false) == Err::<i32, TsfError>(TsfError::InvalidPoint),
{
    lemma_lengths_add_up(text, 0, i);
    assert(text.subrange(0, i) =~= text.take(i));
    assert(text.take(0) =~= Seq::empty());
    let start = Range { start: 0, end: index };
    assert(start == byte_range(text, 0, i));
    assert(field.units_in(byte_range(text, 0, i)) == utf16::unit_len(text.take(i)));
}

/// The earlier of two ends.
pub open spec fn earlier(first: usize, second: usize) -> usize {
    if first <= second {
        first
    } else {
        second
    }
}

/// An extent ends where its line does or where it was asked to end, whichever comes first.
pub proof fn law_extents_end_in_their_line(line_end: usize, range_end: usize)
    ensures
        earlier(line_end, range_end) <= line_end,
        earlier(line_end, range_end) <= range_end,
        earlier(line_end, range_end) == line_end || earlier(line_end, range_end) == range_end,
{
}

impl TextStore {
    /// What the object that listens to the field is told.
    pub open spec fn told_of(self, event: Event) -> Seq<SinkCall> {
        if self.sink {
            calls_for(event, self.view_cookie)
        } else {
            Seq::empty()
        }
    }

    /// An object is told of each change, under the cookie of the field, as long as it listens.
    pub proof fn law_listeners_are_told(self, event: Event)
        ensures
            (self.told_of(event).len() > 0) == self.sink,
            self.sink ==> self.told_of(event) == calls_for(event, self.view_cookie),
    {
    }
}

/// An insertion that is refused leaves the field as it was, and is still answered with where the
/// text would go. Units that are no text are refused only where they would be inserted, and flags
/// that are not known always.
pub proof fn law_refused_insertions_change_nothing<H: InputHandler>(
    before: H,
    after: H,
    flags: u32,
    units: Seq<u16>,
    result: Result<Insertion, InsertionRefusal>,
)
    requires
        text_was_inserted(before, after, flags, units, result),
    ensures
        (result is Err) == (flags > 2 || (flags < 2 && utf16::decoded(units) is None)),
        result matches Err(refusal) ==> {
            &&& after == before
            &&& (refusal.error == TsfError::InvalidArgument) == (flags > 2)
            &&& (refusal.error == TsfError::Unexpected) == (flags < 2)
            &&& refusal.start == positions_of(before, before.current_selection().span()).0
            &&& refusal.end == positions_of(before, before.current_selection().span()).1 + units.len()
        },
{
}

/// Nothing is read of a text whose end lies before its start, and no more than there is.
pub proof fn law_reversed_texts_are_empty<H: InputHandler>(
    field: H,
    start: i32,
    end: i32,
    capacity: u32,
)
    ensures
        asked_bytes(field, start, end, capacity) >= 0,
        ({
            let asked = bytes_between(field, start, asked_end(start, end, capacity) as i32);
            &&& asked.end <= asked.start ==> asked_bytes(field, start, end, capacity) == 0
            &&& asked.start + asked_bytes(field, start, end, capacity) <= field.document_len()
                || asked_bytes(field, start, end, capacity) == 0
        }),
        asked_end(start, end, capacity) <= end,
        asked_end(start, end, capacity) < start + capacity,
{
}

} // verus!
