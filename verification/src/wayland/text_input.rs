//! The conversation with an input method.

use std::ops::Range;

use vstd::prelude::*;

use crate::strings;
use crate::text;
use crate::text::{Affinity, Event, InputHandler, InputOp, Selection, TextFieldToken};
use crate::wayland::SurfaceId;

verus! {

/// Wayland strings cannot be longer than 4000 bytes. This leaves some margin for error.
pub const MAX_SURROUNDING: usize = 3800;

/// How much text is sent around a selection on a line that is too long to be sent whole.
pub const EXTRA_SURROUNDING: usize = 50;

/// Why the text changed.
#[derive(Clone, Copy, Debug, PartialEq, Eq, Structural)]
pub enum ChangeCause {
    InputMethod,
    Other,
}

/// The text around the cursor.
#[derive(Debug)]
pub struct Surrounding {
    pub text: String,
    /// The offset of the cursor in the text.
    pub cursor: i32,
    /// The offset of the other end of the selection in the text.
    pub anchor: i32,
}

/// What to tell the input method, followed by a commit.
#[derive(Debug)]
pub struct SyncRequest {
    /// The text around the cursor, unless the selection is too large to be sent.
    pub surrounding: Option<Surrounding>,
    /// The part of the active line whose bounding box is the cursor rectangle.
    pub cursor_line: Range<usize>,
    pub cause: ChangeCause,
}

/// The number of bytes in a range. A range that ends before it starts is empty.
pub open spec fn range_len(range: Range<usize>) -> int {
    if range.start <= range.end {
        range.end - range.start
    } else {
        0
    }
}

fn len_of(range: &Range<usize>) -> (len: usize)
    ensures
        len == range_len(*range),
{
    if range.start <= range.end {
        range.end - range.start
    } else {
        0
    }
}

/// Whether an offset lies in a range.
pub open spec fn in_range(range: Range<usize>, index: usize) -> bool {
    range.start <= index < range.end
}

/// The first offset from `index` on at which a character starts, looking at `left` more offsets.
pub open spec fn next_boundary<H: InputHandler>(field: H, index: int, left: nat) -> int
    decreases left,
{
    if field.boundary(index as usize) || left == 0 {
        index
    } else {
        next_boundary(field, index + 1, (left - 1) as nat)
    }
}

/// A character starts within reach of `index`.
pub open spec fn boundary_near<H: InputHandler>(field: H, index: int) -> bool {
    exists|k: int| 0 <= k <= 11 && #[trigger] field.boundary((index + k) as usize)
}

/// The first character boundary from `index` on.
fn find_boundary<H: InputHandler>(field: &H, index: usize) -> (found: usize)
    requires
        index <= usize::MAX - 11,
        boundary_near(*field, index as int),
    ensures
        found == next_boundary(*field, index as int, 11),
        field.boundary(found),
        index <= found <= index + 11,
{
    let mut it: usize = index;
    let mut left: usize = 11;
    while !field.is_char_boundary(it)
        invariant
            index <= usize::MAX - 11,
            it + left == index + 11,
            it >= index,
            next_boundary(*field, index as int, 11) == next_boundary(
                *field,
                it as int,
                left as nat,
            ),
            exists|k: int| it <= index + k <= index + 11 && #[trigger] field.boundary(
                (index + k) as usize,
            ),
        decreases left,
    {
        proof {
            let k = choose|k: int|
                it <= index + k <= index + 11 && #[trigger] field.boundary((index + k) as usize);
            assert(index + k != it);
            assert(field.boundary((index + k) as usize));
        }
        it += 1;
        left -= 1;
    }
    it
}

/// The line that the selection starts on.
pub open spec fn first_line<H: InputHandler>(field: H) -> Range<usize> {
    field.line_around(field.current_selection().low(), Affinity::Upstream)
}

/// The line that the selection ends on.
pub open spec fn last_line<H: InputHandler>(field: H) -> Range<usize> {
    field.line_around(field.current_selection().high(), Affinity::Downstream)
}

/// All of the lines that the selection touches.
pub open spec fn whole_lines<H: InputHandler>(field: H) -> Range<usize> {
    Range { start: first_line(field).start, end: last_line(field).end }
}

/// Whether the lines of the selection are too long to be sent whole.
pub open spec fn lines_too_long<H: InputHandler>(field: H) -> bool {
    range_len(whole_lines(field)) > MAX_SURROUNDING
}

/// Whether even the selection is too long to be sent.
pub open spec fn selection_too_long<H: InputHandler>(field: H) -> bool {
    lines_too_long(field) && range_len(field.current_selection().span()) > MAX_SURROUNDING
}

/// Where to look for a character from which to start the text that is sent of long lines.
pub open spec fn cut_start<H: InputHandler>(field: H) -> int {
    let wanted = field.current_selection().low() - EXTRA_SURROUNDING;
    if wanted >= first_line(field).start {
        wanted
    } else {
        first_line(field).start as int
    }
}

/// Where to look for a character with which to end the text that is sent of long lines.
pub open spec fn cut_end<H: InputHandler>(field: H) -> int {
    let wanted = field.current_selection().high() + EXTRA_SURROUNDING;
    if wanted <= last_line(field).end {
        wanted
    } else {
        last_line(field).end as int
    }
}

/// The part of the document that is sent: the lines of the selection, or where they are too long,
/// the selection with some text around it.
pub open spec fn sent_range<H: InputHandler>(field: H) -> Range<usize> {
    if lines_too_long(field) {
        Range {
            start: next_boundary(field, cut_start(field), 11) as usize,
            end: next_boundary(field, cut_end(field), 11) as usize,
        }
    } else {
        whole_lines(field)
    }
}

/// An offset, moved out of the composed text to its start.
pub open spec fn outside_composition<H: InputHandler>(field: H, index: usize) -> usize {
    match field.current_composition() {
        Some(excluded) => if in_range(excluded, index) {
            excluded.start
        } else {
            index
        },
        None => index,
    }
}

/// The text that is sent, without the composed text.
pub open spec fn sent_text<H: InputHandler>(field: H) -> Seq<char> {
    let all = sent_range(field);
    match field.current_composition() {
        None => field.text_in(all),
        Some(excluded) => {
            let before = field.text_in(Range { start: all.start, end: excluded.start });
            let after = Range { start: excluded.end, end: all.end };
            if after.start < after.end {
                before + field.text_in(after)
            } else {
                before
            }
        },
    }
}

/// The part of the active line up to the cursor, or from it.
pub open spec fn cursor_line<H: InputHandler>(field: H) -> Range<usize> {
    let selection = field.current_selection();
    if selection.active == selection.low() {
        Range { start: last_line(field).start, end: selection.active }
    } else {
        Range { start: selection.active, end: first_line(field).end }
    }
}

/// The offsets that are sent are those of the text that is sent.
pub open spec fn offset_fits<H: InputHandler>(field: H, index: usize) -> bool {
    sent_range(field).start <= outside_composition(field, index) <= sent_range(field).start
        + i32::MAX
}

/// A field that can be described to an input method.
pub open spec fn can_describe<H: InputHandler>(field: H) -> bool {
    let selection = field.current_selection();
    selection_too_long(field) || {
        &&& lines_too_long(field) ==> {
            &&& boundary_near(field, cut_start(field))
            &&& boundary_near(field, cut_end(field))
        }
        &&& offset_fits(field, selection.active)
        &&& offset_fits(field, selection.anchor)
    }
}

/// What is sent about a field.
pub open spec fn describes<H: InputHandler>(
    request: SyncRequest,
    field: H,
    cause: ChangeCause,
) -> bool {
    let selection = field.current_selection();
    let start = sent_range(field).start;
    &&& request.cause == cause
    &&& request.cursor_line == cursor_line(field)
    &&& if selection_too_long(field) {
        request.surrounding is None
    } else {
        &&& request.surrounding is Some
        &&& request.surrounding->0.text@ == sent_text(field)
        &&& request.surrounding->0.cursor == outside_composition(field, selection.active) - start
        &&& request.surrounding->0.anchor == outside_composition(field, selection.anchor) - start
    }
}

/// What has been agreed with the input method so far.
///
/// Wayland requires that we store all the state sent in requests,
/// and then apply them in the `done` message. They will be applied in done, unless reset.
#[derive(Debug)]
pub struct InputState {
    pub active_window: Option<SurfaceId>,
    /// How often changes were committed to the input method.
    pub commit_count: u32,
    pub commit_string: Option<String>,
    pub preedit_string: Option<String>,
    pub delete_surrounding_before: u32,
    pub delete_surrounding_after: u32,
    /// The new positions of the cursor, in the preedit text.
    /// Begin and end are unclear - we presume begin is anchor and end is
    /// active
    pub new_cursor_begin: i32,
    pub new_cursor_end: i32,
    pub changed: bool,
    /// The field that the state is relative to.
    pub token: Option<TextFieldToken>,
    /// The position in the document where the input method
    /// believes the buffer to start from.
    /// Will be None if we didn't send a buffer this time (because the selection was too large)
    pub buffer_start: Option<usize>,
}

/// An event of the input method.
#[derive(Debug)]
pub enum InputMethodEvent {
    PreeditString { text: Option<String>, cursor_begin: i32, cursor_end: i32 },
    CommitString { text: Option<String> },
    DeleteSurroundingText { before_length: u32, after_length: u32 },
}

/// What happened to the text field of a window.
#[derive(Clone, Copy, Debug, PartialEq, Eq, Structural)]
pub enum TextFieldChange {
    /// The application changed something in a field.
    Updated(TextFieldToken, Event),
    /// Another field was focused, or none.
    Changed,
}

/// Something to ask of the input method or of the window.
#[derive(Clone, Copy, Debug, PartialEq, Eq, Structural)]
pub enum FieldRequest {
    Enable,
    Disable,
    /// Send the cursor rectangle.
    SyncCursor,
    /// Send the state of the field.
    SyncState(ChangeCause),
    /// Give back the lock on a field.
    Release(TextFieldToken),
}

/// What a change of a field comes to. `locked` is the field of the window that could be locked.
pub open spec fn requests_after(change: TextFieldChange, locked: Option<TextFieldToken>) -> Seq<
    FieldRequest,
> {
    match (change, locked) {
        (TextFieldChange::Updated(_, _), None) => Seq::empty(),
        (TextFieldChange::Updated(token, event), Some(field)) => if field != token {
            seq![FieldRequest::Release(field)]
        } else if event == Event::LayoutChanged {
            seq![FieldRequest::SyncCursor, FieldRequest::Release(field)]
        } else {
            seq![FieldRequest::SyncState(ChangeCause::Other), FieldRequest::Release(field)]
        },
        (TextFieldChange::Changed, None) => seq![FieldRequest::Disable],
        (TextFieldChange::Changed, Some(field)) => seq![
            FieldRequest::Enable,
            FieldRequest::SyncState(ChangeCause::Other),
            FieldRequest::Release(field),
        ],
    }
}

/// An offset of a cursor that the input method places. One before the start of the document, as a
/// hidden cursor there has, wraps around.
pub open spec fn offset_at(position: int) -> usize {
    if position >= 0 {
        position as usize
    } else {
        (position + usize::MAX + 1) as usize
    }
}

fn to_offset(position: i32) -> (offset: usize)
    ensures
        offset == offset_at(position as int),
{
    if position >= 0 {
        position as usize
    } else {
        usize::MAX - (-1 - position) as usize
    }
}

/// The text of an optional string.
pub open spec fn text_or_empty(text: Option<String>) -> Seq<char> {
    match text {
        Some(text) => text@,
        None => Seq::empty(),
    }
}

impl InputState {
    pub fn new() -> (state: InputState)
        ensures
            state == Self::blank(None, 0, false, None),
    {
        InputState {
            active_window: None,
            commit_count: 0,
            delete_surrounding_after: 0,
            delete_surrounding_before: 0,
            commit_string: None,
            preedit_string: None,
            new_cursor_begin: 0,
            new_cursor_end: 0,
            changed: false,
            buffer_start: None,
            token: None,
        }
    }

    /// A state in which nothing waits to be applied.
    pub open spec fn blank(
        active_window: Option<SurfaceId>,
        commit_count: u32,
        changed: bool,
        token: Option<TextFieldToken>,
    ) -> InputState {
        InputState {
            active_window,
            commit_count,
            delete_surrounding_after: 0,
            delete_surrounding_before: 0,
            commit_string: None,
            preedit_string: None,
            new_cursor_begin: 0,
            new_cursor_end: 0,
            changed,
            buffer_start: None,
            token,
        }
    }

    /// Move between different text inputs
    ///
    /// Used alongside the enable request, or in response to the leave event
    pub fn reset(&mut self, token: Option<TextFieldToken>)
        ensures
            *final(self) == Self::blank(
                old(self).active_window,
                old(self).commit_count,
                old(self).changed,
                token,
            ),
    {
        self.commit_string = None;
        self.preedit_string = None;
        self.delete_surrounding_before = 0;
        self.delete_surrounding_after = 0;
        self.new_cursor_begin = 0;
        self.new_cursor_end = 0;
        self.buffer_start = None;
        self.token = token;
    }

    /// Stops editing the field. Returns whether there was one, in which case the input method has
    /// to be disabled.
    pub fn remove_field(&mut self) -> (disable: bool)
        ensures
            disable == (old(self).token is Some),
            *final(self) == old(self).field_removed(),
    {
        if self.token.is_some() {
            self.reset(None);
            true
        } else {
            false
        }
    }

    /// Starts editing a field, unless one is edited. Returns whether the input method has to be
    /// enabled.
    pub fn set_field_if_needed(&mut self, token: TextFieldToken) -> (enable: bool)
        ensures
            enable == (old(self).token is None),
            *final(self) == old(self).field_set(token),
    {
        if self.token.is_none() {
            self.token = Some(token);
            true
        } else {
            false
        }
    }

    /// Counts a commit.
    fn commit(&mut self)
        requires
            old(self).commit_count < u32::MAX,
        ensures
            *final(self) == (InputState {
                commit_count: (old(self).commit_count + 1) as u32,
                ..*old(self)
            }),
    {
        self.commit_count += 1;
    }

    /// Works out what to tell the input method about a field, and notes what it will know.
    pub fn sync_state<H: InputHandler>(&mut self, field: &H, cause: ChangeCause) -> (request:
        SyncRequest)
        requires
            old(self).commit_count < u32::MAX,
            can_describe(*field),
        ensures
            describes(request, *field, cause),
            *final(self) == old(self).synced(*field),
    {
        let selection = field.selection();
        let selection_range = selection.range();
        let start_line = field.line_range(selection_range.start, Affinity::Upstream);
        let end_line = field.line_range(selection_range.end, Affinity::Downstream);
        let whole = start_line.start..end_line.end;
        let too_long = len_of(&whole) > MAX_SURROUNDING;
        let cursor_line = Self::sync_cursor_rectangle(field);
        if too_long && len_of(&selection_range) > MAX_SURROUNDING {
            // If the selection range is too big, the protocol seems not to support this
            // Just don't send it then
            // Luckily, the set_surrounding_text isn't needed, and
            // pre-edit text will soon be deleted
            self.buffer_start = None;
            self.commit();
            return SyncRequest { surrounding: None, cursor_line, cause };
        }
        let mut start: usize = whole.start;
        let mut end: usize = whole.end;
        if too_long {
            let wanted_start: usize = selection_range.start.saturating_sub(EXTRA_SURROUNDING);
            let wanted_end: usize = selection_range.end + EXTRA_SURROUNDING;
            start = find_boundary(
                field,
                if wanted_start >= start_line.start {
                    wanted_start
                } else {
                    start_line.start
                },
            );
            end = find_boundary(
                field,
                if wanted_end <= end_line.end {
                    wanted_end
                } else {
                    end_line.end
                },
            );
        }
        let mut active: usize = selection.active;
        let mut anchor: usize = selection.anchor;
        let text: String;
        match field.composition_range() {
            Some(excluded) => {
                // If pre-edit text has been sent to the client, the selection lies in it or is
                // elsewhere. The input method does not want to know of the pre-edit text.
                if excluded.start <= active && active < excluded.end {
                    active = excluded.start;
                }
                if excluded.start <= anchor && anchor < excluded.end {
                    anchor = excluded.start;
                }
                let mut both = field.slice(start..excluded.start);
                if excluded.end < end {
                    let after = field.slice(excluded.end..end);
                    both.append(after.as_str());
                }
                text = both;
            },
            None => {
                text = field.slice(start..end);
            },
        }
        let surrounding = Surrounding {
            text,
            cursor: (active - start) as i32,
            anchor: (anchor - start) as i32,
        };
        self.buffer_start = Some(start);
        self.commit();
        SyncRequest { surrounding: Some(surrounding), cursor_line, cause }
    }

    /// The part of the active line whose bounding box is the cursor rectangle.
    pub fn sync_cursor_rectangle<H: InputHandler>(field: &H) -> (line: Range<usize>)
        ensures
            line == cursor_line(*field),
    {
        let selection = field.selection();
        let start_line = field.line_range(selection.min(), Affinity::Upstream);
        let end_line = field.line_range(selection.max(), Affinity::Downstream);
        if selection.active == selection.min() {
            end_line.start..selection.active
        } else {
            selection.active..start_line.end
        }
    }

    /// Notes what the input method wants to change. It is applied when the input method is done.
    pub fn note(&mut self, event: InputMethodEvent)
        ensures
            *final(self) == old(self).noted(event),
    {
        match event {
            InputMethodEvent::PreeditString { text, cursor_begin, cursor_end } => {
                self.preedit_string = text;
                self.new_cursor_begin = cursor_begin;
                self.new_cursor_end = cursor_end;
            },
            InputMethodEvent::CommitString { text } => {
                self.commit_string = text;
            },
            InputMethodEvent::DeleteSurroundingText { before_length, after_length } => {
                self.delete_surrounding_after = after_length;
                self.delete_surrounding_before = before_length;
            },
        }
        self.changed = true;
    }

    /// The selection once the old preedit text is gone: where that was.
    pub open spec fn without_preedit<H: InputHandler>(field: H) -> Selection {
        match field.current_composition() {
            Some(range) => Selection { anchor: range.start, active: range.start },
            None => field.current_selection(),
        }
    }

    /// Whether the input method asked to delete text around the cursor.
    pub open spec fn deletes(self) -> bool {
        self.delete_surrounding_before > 0 || self.delete_surrounding_after > 0
    }

    /// What is deleted around the cursor.
    pub open spec fn deleted<H: InputHandler>(self, field: H) -> Range<usize> {
        let active = Self::without_preedit(field).active;
        Range {
            start: (active - self.delete_surrounding_before) as usize,
            end: (active + self.delete_surrounding_after) as usize,
        }
    }

    /// The selection once the text around the cursor is deleted.
    pub open spec fn after_deletion<H: InputHandler>(self, field: H) -> Selection {
        let selection = Self::without_preedit(field);
        if self.deletes() {
            let deleted = self.deleted(field);
            Selection {
                active: deleted.start,
                anchor: if in_range(deleted, selection.anchor) {
                    deleted.start
                } else {
                    selection.anchor
                },
            }
        } else {
            selection
        }
    }

    /// The first requests: the old preedit text goes, and then the text around the cursor.
    pub open spec fn removals<H: InputHandler>(self, field: H) -> Seq<InputOp> {
        let preedit = match field.current_composition() {
            Some(range) => seq![InputOp::ReplaceRange(range, Seq::empty())],
            None => Seq::empty(),
        };
        if self.deletes() {
            preedit.push(InputOp::ReplaceRange(self.deleted(field), Seq::empty()))
        } else {
            preedit
        }
    }

    /// The last requests: the new preedit text, with the cursor in it.
    pub open spec fn insertions(self, start: usize) -> Seq<InputOp> {
        match self.preedit_string {
            Some(preedit) => seq![
                InputOp::ReplaceRange(Range { start, end: start }, preedit@),
                InputOp::SetCompositionRange(
                    Some(Range { start, end: (start + strings::byte_len(preedit@)) as usize }),
                ),
                InputOp::SetSelection(
                    Selection {
                        anchor: offset_at(start as i32 + self.new_cursor_begin),
                        active: offset_at(start as i32 + self.new_cursor_end),
                    },
                ),
            ],
            None => seq![InputOp::SetCompositionRange(None)],
        }
    }

    /// All of the requests, in the order that the protocol asks for: the old preedit text is
    /// replaced with the cursor, the surrounding text is deleted, the commit string is inserted,
    /// and the new preedit text is inserted with the cursor in it.
    pub open spec fn edits<H: InputHandler>(self, field: H) -> Seq<InputOp> {
        let selection = self.after_deletion(field);
        self.removals(field).push(
            InputOp::ReplaceRange(selection.span(), text_or_empty(self.commit_string)),
        ) + self.insertions(selection.low())
    }

    /// What the input method asks for fits in the document.
    pub open spec fn can_apply<H: InputHandler>(self, field: H) -> bool {
        let active = Self::without_preedit(field).active;
        let start = self.after_deletion(field).low();
        &&& self.deletes() ==> self.delete_surrounding_before <= active && active
            + self.delete_surrounding_after <= usize::MAX
        &&& self.preedit_string matches Some(preedit) ==> {
            &&& strings::fits_in_memory(preedit@)
            &&& i32::MIN <= start as i32 + self.new_cursor_begin <= i32::MAX
            &&& i32::MIN <= start as i32 + self.new_cursor_end <= i32::MAX
        }
    }

    /// What is left once the changes are applied: the texts are used up.
    pub open spec fn applied(self) -> InputState {
        InputState { commit_string: None, preedit_string: None, ..self }
    }

    /// Applies what the input method asked for. Returns whether the field then holds preedit text.
    pub fn done<H: InputHandler>(&mut self, field: &mut H) -> (has_preedit: bool)
        requires
            old(self).can_apply(*old(field)),
        ensures
            final(field).requests() == old(field).requests() + old(self).edits(*old(field)),
            has_preedit == (old(self).preedit_string is Some),
            *final(self) == old(self).applied(),
    {
        let ghost before = *field;
        let selection = self.apply_removals(field);
        // 3. Insert commit string with the cursor at its end.
        let commit_string = self.commit_string.take();
        match &commit_string {
            Some(commit) => {
                field.replace_range(selection.range(), commit.as_str());
            },
            None => {
                field.replace_range(selection.range(), "");
                proof {
                    reveal_strlit("");
                    assert(""@ =~= Seq::<char>::empty());
                }
            },
        }
        // 4. The surrounding text to send is worked out in sync_state.
        let ghost so_far = field.requests();
        let has_preedit = self.apply_insertions(field, selection.min());
        assert(field.requests() =~= before.requests() + old(self).edits(before)) by {
            assert(so_far =~= before.requests() + old(self).removals(before).push(
                InputOp::ReplaceRange(
                    old(self).after_deletion(before).span(),
                    text_or_empty(old(self).commit_string),
                ),
            ));
        }
        has_preedit
    }

    /// Steps 1 and 2: the old preedit text goes, and then the text around the cursor. Returns the
    /// selection after that.
    fn apply_removals<H: InputHandler>(&self, field: &mut H) -> (selection: Selection)
        requires
            self.can_apply(*old(field)),
        ensures
            selection == self.after_deletion(*old(field)),
            selection.low() <= isize::MAX,
            final(field).requests() == old(field).requests() + self.removals(*old(field)),
    {
        let ghost before = *field;
        let pre_edit_range = field.composition_range();
        let mut selection = field.selection();
        proof {
            reveal_strlit("");
            assert(""@ =~= Seq::<char>::empty());
        }
        // 1. Replace existing preedit string with the cursor.
        if let Some(range) = pre_edit_range {
            selection.active = range.start;
            selection.anchor = range.start;
            field.replace_range(range, "");
        }
        // 2. Delete requested surrounding text.
        if self.delete_surrounding_before > 0 || self.delete_surrounding_after > 0 {
            // The protocol is unclear on how this should be handled when there is a cursor range.
            let delete_start: usize = selection.active - self.delete_surrounding_before as usize;
            let delete_end: usize = selection.active + self.delete_surrounding_after as usize;
            if delete_start <= selection.anchor && selection.anchor < delete_end {
                selection.anchor = delete_start;
            }
            selection.active = delete_start;
            field.replace_range(delete_start..delete_end, "");
        }
        assert(field.requests() =~= before.requests() + self.removals(before));
        selection
    }

    /// Steps 5 and 6: the new preedit text is inserted at `start`, with the cursor in it.
    fn apply_insertions<H: InputHandler>(&mut self, field: &mut H, start: usize) -> (has_preedit:
        bool)
        requires
            start <= isize::MAX,
            old(self).preedit_string matches Some(preedit) ==> {
                &&& strings::fits_in_memory(preedit@)
                &&& i32::MIN <= start as i32 + old(self).new_cursor_begin <= i32::MAX
                &&& i32::MIN <= start as i32 + old(self).new_cursor_end <= i32::MAX
            },
        ensures
            final(field).requests() == old(field).requests() + old(self).insertions(start),
            has_preedit == (old(self).preedit_string is Some),
            *final(self) == (InputState { preedit_string: None, ..*old(self) }),
    {
        let ghost before = field.requests();
        match self.preedit_string.take() {
            Some(preedit) => {
                let length: usize = strings::len_in_bytes(preedit.as_str());
                field.replace_range(start..start, preedit.as_str());
                field.set_composition_range(Some(start..start + length));
                let at: i32 = start as i32;
                field.set_selection(
                    Selection::new(
                        to_offset(at + self.new_cursor_begin),
                        to_offset(at + self.new_cursor_end),
                    ),
                );
                assert(field.requests() =~= before + old(self).insertions(start));
                true
            },
            None => {
                field.set_composition_range(None);
                assert(field.requests() =~= before + old(self).insertions(start));
                false
            },
        }
    }

    /// Whether the input method has to be told about the field after it was done. It has to, if it
    /// has seen everything that was committed, and something changed; what changed is then known.
    pub fn needs_sync(&mut self, serial: u32) -> (sync: bool)
        ensures
            sync == (serial == old(self).commit_count && old(self).changed),
            *final(self) == (InputState { changed: old(self).changed && !sync, ..*old(self) }),
    {
        let sync = serial == self.commit_count && self.changed;
        if sync {
            self.changed = false;
        }
        sync
    }

    /// Follows a change of the window's text field. `locked` is the field of the window that could
    /// be locked.
    pub fn text_field_changed(
        &mut self,
        change: TextFieldChange,
        locked: Option<TextFieldToken>,
    ) -> (requests: Vec<FieldRequest>)
        ensures
            requests@ == requests_after(change, locked),
            *final(self) == old(self).moved(change, locked),
    {
        let mut requests: Vec<FieldRequest> = Vec::new();
        match change {
            TextFieldChange::Updated(event_token, event) => {
                if let Some(token) = locked {
                    if token == event_token {
                        match event {
                            Event::LayoutChanged => requests.push(FieldRequest::SyncCursor),
                            // Wayland doesn't distinguish between these cases
                            Event::SelectionChanged | Event::Reset => requests.push(
                                FieldRequest::SyncState(ChangeCause::Other),
                            ),
                        }
                    }
                    requests.push(FieldRequest::Release(token));
                }
            },
            TextFieldChange::Changed => {
                match locked {
                    Some(token) => {
                        requests.push(FieldRequest::Enable);
                        requests.push(FieldRequest::SyncState(ChangeCause::Other));
                        requests.push(FieldRequest::Release(token));
                    },
                    None => {
                        requests.push(FieldRequest::Disable);
                    },
                }
                self.reset(locked);
            },
        }
        assert(requests@ =~= requests_after(change, locked));
        requests
    }

    /// The input method turns to a window, whose focused field is `field`, and which could be
    /// locked as `locked`.
    pub fn enter(
        &mut self,
        window: SurfaceId,
        field: Option<TextFieldToken>,
        locked: Option<TextFieldToken>,
    ) -> (requests: Vec<FieldRequest>)
        ensures
            *final(self) == (InputState {
                active_window: Some(window),
                token: field,
                ..*old(self)
            }),
            requests@ == taken_up(locked),
    {
        self.active_window = Some(window);
        self.token = field;
        let mut requests: Vec<FieldRequest> = Vec::new();
        if let Some(token) = locked {
            requests.push(FieldRequest::Enable);
            // The cause is Other here, because the input editor has not sent the text
            requests.push(FieldRequest::SyncState(ChangeCause::Other));
            requests.push(FieldRequest::Release(token));
        }
        assert(requests@ =~= taken_up(locked));
        requests
    }

    /// The input method turns away from a window. If the window is gone, nothing is known of it.
    pub fn leave(&mut self, window_exists: bool)
        ensures
            *final(self) == old(self).after_leaving(window_exists),
    {
        if window_exists {
            self.reset(None);
            self.active_window = None;
            self.changed = true;
        }
    }

    /// Whether the changes that wait may be applied to the field that was locked: only if they
    /// were meant for it.
    pub fn is_for(&self, locked: Option<TextFieldToken>) -> (yes: bool)
        ensures
            yes == (locked is Some && self.token == locked),
    {
        match (locked, self.token) {
            (Some(field), Some(token)) => field == token,
            _ => false,
        }
    }
}

/// A text is inserted once: whatever the field then holds, applying the changes again inserts no
/// text.
pub proof fn law_commit_is_applied_once<H: InputHandler>(state: InputState, later: H)
    ensures
        forall|i: int|
            0 <= i < state.applied().edits(later).len() ==> (#[trigger] state.applied().edits(
                later,
            )[i] matches InputOp::ReplaceRange(_, text) ==> text.len() == 0),
        state.applied().edits(later).last() == InputOp::SetCompositionRange(None),
{
    let again = state.applied();
    let removals = again.removals(later);
    let selection = again.after_deletion(later).span();
    let first = removals.push(InputOp::ReplaceRange(selection, Seq::empty()));
    assert(again.edits(later) =~= first.push(InputOp::SetCompositionRange(None)));
}

/// The text that is sent always fits into a message of the protocol, as long as the text of a
/// range is no longer than the range and the document holds whole characters.
pub proof fn law_surrounding_text_fits<H: InputHandler>(field: H)
    requires
        can_describe(field),
        !selection_too_long(field),
        field.current_composition() is None,
        first_line(field).start <= field.current_selection().low(),
        field.current_selection().high() <= last_line(field).end,
        last_line(field).end <= isize::MAX,
        strings::byte_len(field.text_in(sent_range(field))) <= range_len(sent_range(field)),
    ensures
        strings::byte_len(sent_text(field)) <= MAX_SURROUNDING + 2 * EXTRA_SURROUNDING + 11,
        MAX_SURROUNDING + 2 * EXTRA_SURROUNDING + 11 < 4000,
{
    if lines_too_long(field) {
        lemma_next_boundary_bounds(field, cut_start(field), 11);
        lemma_next_boundary_bounds(field, cut_end(field), 11);
    }
}

proof fn lemma_next_boundary_bounds<H: InputHandler>(field: H, index: int, left: nat)
    ensures
        index <= next_boundary(field, index, left) <= index + left,
    decreases left,
{
    if !(field.boundary(index as usize) || left == 0) {
        lemma_next_boundary_bounds(field, index + 1, (left - 1) as nat);
    }
}

/// Where nothing is composed and nothing is to be deleted, a commit overwrites exactly what is
/// selected: what is before and after the selection stays, and none of the selected text is left.
pub proof fn law_commit_takes_the_place_of_the_selection<H: InputHandler>(
    state: InputState,
    field: H,
    before: Seq<u8>,
    selected: Seq<u8>,
    after: Seq<u8>,
)
    requires
        field.current_composition() is None,
        state.delete_surrounding_before == 0,
        state.delete_surrounding_after == 0,
        state.preedit_string is None,
        ({
            let selection = field.current_selection();
            ||| selection.anchor == before.len() && selection.active == before.len()
                + selected.len()
            ||| selection.active == before.len() && selection.anchor == before.len()
                + selected.len()
        }),
    ensures
        ({
            let commit = match state.commit_string {
                Some(text) => text@,
                None => Seq::empty(),
            };
            &&& state.edits(field) == seq![
                InputOp::ReplaceRange(
                    Range {
                        start: before.len() as usize,
                        end: (before.len() + selected.len()) as usize,
                    },
                    commit,
                ),
                InputOp::SetCompositionRange(None),
            ]
            &&& text::edited(before + selected + after, state.edits(field)) == before
                + vstd::utf8::encode_utf8(commit) + after
        }),
{
    let commit = match state.commit_string {
        Some(text) => text@,
        None => Seq::empty(),
    };
    let range = field.current_selection().span();
    let op = InputOp::ReplaceRange(range, commit);
    let one = Seq::empty().push(op);
    let document = before + selected + after;
    assert(state.edits(field) =~= one.push(InputOp::SetCompositionRange(None)));
    text::lemma_edited_push(document, Seq::empty(), op);
    text::lemma_edited_push(document, one, InputOp::SetCompositionRange(None));
    text::lemma_replaced(before, selected, after, range, commit);
}

/// What a caret or the composed text is replaced with: the old preedit text is gone, and just as
/// many bytes before and after it as the input method asked for; the new preedit text stands in
/// that place, and the committed text. The composed range is just the new preedit text, and the
/// cursor is placed in it. Without new preedit text nothing is composed any more.
pub proof fn law_input_method_edits_around_the_caret<H: InputHandler>(
    state: InputState,
    field: H,
    before: Seq<u8>,
    gone_before: Seq<u8>,
    preedit: Seq<u8>,
    gone_after: Seq<u8>,
    after: Seq<u8>,
)
    requires
        gone_before.len() == state.delete_surrounding_before,
        gone_after.len() == state.delete_surrounding_after,
        gone_after.len() > 0 || gone_before.len() == 0,
        before.len() + gone_before.len() + preedit.len() + gone_after.len() <= isize::MAX,
        field.current_composition() matches Some(range) ==> range.start == before.len()
            + gone_before.len() && range.end == range.start + preedit.len(),
        field.current_composition() is None ==> preedit.len() == 0 && ({
            let selection = field.current_selection();
            selection.anchor == selection.active && selection.active == before.len()
                + gone_before.len()
        }),
        state.preedit_string matches Some(text) ==> strings::fits_in_memory(text@) && before.len()
            <= i32::MAX,
    ensures
        ({
            let commit = match state.commit_string {
                Some(text) => vstd::utf8::encode_utf8(text@),
                None => Seq::empty(),
            };
            let shown = match state.preedit_string {
                Some(text) => vstd::utf8::encode_utf8(text@),
                None => Seq::empty(),
            };
            let edits = state.edits(field);
            let result = text::edited(
                before + gone_before + preedit + gone_after + after,
                edits,
            );
            &&& result == before + shown + commit + after
            &&& state.preedit_string is None ==> edits.last() == InputOp::SetCompositionRange(None)
            &&& state.preedit_string is Some ==> {
                &&& edits[edits.len() - 2] matches InputOp::SetCompositionRange(Some(range))
                    && range.start == before.len() && result.subrange(
                    range.start as int,
                    range.end as int,
                ) == shown
                &&& edits.last() matches InputOp::SetSelection(selection) && (
                state.new_cursor_begin >= 0 ==> selection.anchor == before.len()
                    + state.new_cursor_begin) && (state.new_cursor_end >= 0 ==> selection.active
                    == before.len() + state.new_cursor_end)
            }
        }),
{
    text::lemma_no_text();
    let empty = Seq::<char>::empty();
    let none = Seq::<u8>::empty();
    let commit_text = text_or_empty(state.commit_string);
    let commit = vstd::utf8::encode_utf8(commit_text);
    let start = before.len() as usize;
    let document = before + gone_before + preedit + gone_after + after;
    let removals = state.removals(field);
    let selection = state.after_deletion(field);
    assert(selection == (Selection { anchor: start, active: start }));
    // The old preedit text goes.
    let first = match field.current_composition() {
        Some(range) => Seq::empty().push(InputOp::ReplaceRange(range, empty)),
        None => Seq::empty(),
    };
    let without = before + gone_before + gone_after + after;
    assert(text::edited(document, first) == without) by {
        if let Some(range) = field.current_composition() {
            text::lemma_edited_push(document, Seq::empty(), InputOp::ReplaceRange(range, empty));
            text::lemma_replaced(before + gone_before, preedit, gone_after + after, range, empty);
            assert(document =~= (before + gone_before) + preedit + (gone_after + after));
            assert((before + gone_before) + none + (gone_after + after) =~= without);
        } else {
            assert(document =~= without);
        }
    }
    // So does the text around the caret.
    assert(text::edited(document, removals) == before + after) by {
        if state.deletes() {
            let deleted = state.deleted(field);
            let op = InputOp::ReplaceRange(deleted, empty);
            assert(removals =~= first.push(op));
            text::lemma_edited_push(document, first, op);
            text::lemma_replaced(before, gone_before + gone_after, after, deleted, empty);
            assert(without =~= before + (gone_before + gone_after) + after);
            assert(before + none + after =~= before + after);
        } else {
            assert(removals =~= first);
            assert(without =~= before + after);
        }
    }
    // The committed text comes.
    let put = InputOp::ReplaceRange(selection.span(), commit_text);
    let committed = removals.push(put);
    text::lemma_edited_push(document, removals, put);
    text::lemma_replaced(before, none, after, selection.span(), commit_text);
    assert(before + none + after =~= before + after);
    assert(text::edited(document, committed) == before + commit + after);
    let edits = state.edits(field);
    match state.preedit_string {
        None => {
            let last = InputOp::SetCompositionRange(None);
            assert(edits =~= committed.push(last));
            text::lemma_edited_push(document, committed, last);
            assert(before + none + commit + after =~= before + commit + after);
        },
        Some(text) => {
            let ops = state.insertions(start);
            let shown = vstd::utf8::encode_utf8(text@);
            let two = committed.push(ops[0]);
            let three = two.push(ops[1]);
            assert(edits =~= three.push(ops[2]));
            text::lemma_edited_push(document, committed, ops[0]);
            text::lemma_edited_push(document, two, ops[1]);
            text::lemma_edited_push(document, three, ops[2]);
            let place = Range { start, end: start };
            text::lemma_replaced(before, none, commit + after, place, text@);
            assert(before + commit + after =~= before + none + (commit + after));
            let result = before + shown + commit + after;
            assert(before + shown + (commit + after) =~= result);
            assert(result.subrange(start as int, start + shown.len()) =~= shown);
        },
    }
}

/// A deletion is counted from the caret, and the caret is then where it started. The other end of
/// the selection stays where it was, unless the deletion reached over it; the commit overwrites what
/// lies between the two.
pub proof fn law_deletion_is_counted_from_the_caret<H: InputHandler>(state: InputState, field: H)
    requires
        field.current_composition() is None,
        state.delete_surrounding_before > 0 || state.delete_surrounding_after > 0,
        state.delete_surrounding_before <= field.current_selection().active,
        field.current_selection().active + state.delete_surrounding_after <= usize::MAX,
    ensures
        ({
            let selection = field.current_selection();
            let edits = state.edits(field);
            &&& edits[0] matches InputOp::ReplaceRange(deleted, text) && text.len() == 0
                && selection.active - deleted.start == state.delete_surrounding_before
                && deleted.end - selection.active == state.delete_surrounding_after
            &&& edits[0] matches InputOp::ReplaceRange(deleted, _) && edits[1]
                matches InputOp::ReplaceRange(over, _) && {
                let kept = selection.anchor < deleted.start || selection.anchor >= deleted.end;
                &&& over.start <= over.end
                &&& over.start == deleted.start || over.end == deleted.start
                &&& kept ==> over.start == selection.anchor || over.end == selection.anchor
                &&& !kept ==> over.start == over.end
            }
        }),
{
}

/// The old preedit text goes first, then the text around the cursor, then the committed text comes,
/// and at last the new preedit text.
pub proof fn law_edits_come_in_order<H: InputHandler>(state: InputState, field: H)
    ensures
        ({
            let removed: int = if field.current_composition() is Some {
                1
            } else {
                0
            };
            let deleted: int = if state.delete_surrounding_before > 0
                || state.delete_surrounding_after > 0 {
                1
            } else {
                0
            };
            let edits = state.edits(field);
            let at = removed + deleted;
            &&& removed == 1 ==> edits[0] == InputOp::ReplaceRange(
                field.current_composition()->0,
                Seq::empty(),
            )
            &&& deleted == 1 ==> (edits[removed] matches InputOp::ReplaceRange(_, text)
                && text.len() == 0)
            &&& edits[at] matches InputOp::ReplaceRange(_, text) && (
            state.commit_string matches Some(commit) ==> text == commit@) && (
            state.commit_string is None ==> text.len() == 0)
            &&& edits.len() == at + 1 + (if state.preedit_string is Some {
                3int
            } else {
                1
            })
            &&& state.preedit_string matches Some(preedit) ==> (edits[at + 1]
                matches InputOp::ReplaceRange(range, text) && text == preedit@ && range.start
                == range.end)
        }),
{
}

/// What is sent of a field is a piece of its document, with the cursor and the other end of the
/// selection at the places that they have in the document: all of the lines of the selection, or
/// where these are too long, no more than some text around it.
pub proof fn law_input_method_describes_the_field<H: InputHandler>(
    request: SyncRequest,
    field: H,
    cause: ChangeCause,
    document: Seq<u8>,
)
    requires
        describes(request, field, cause),
        can_describe(field),
        !selection_too_long(field),
        field.current_composition() is None,
        first_line(field).start <= field.current_selection().low(),
        field.current_selection().high() <= last_line(field).end,
        last_line(field).end <= document.len(),
        document.len() + 11 <= i32::MAX,
        field.boundary(field.current_selection().low()),
        field.boundary(field.current_selection().high()),
        forall|end: usize| end <= document.len() || !#[trigger] field.boundary(end),
        forall|range: Range<usize>|
            range.start <= range.end <= document.len() ==> vstd::utf8::encode_utf8(
                #[trigger] field.text_in(range),
            ) == document.subrange(range.start as int, range.end as int),
    ensures
        request.cause == cause,
        ({
            let selection = field.current_selection();
            let sent = request.surrounding->0;
            let bytes = vstd::utf8::encode_utf8(sent.text@);
            &&& request.surrounding is Some
            &&& 0 <= sent.cursor <= bytes.len()
            &&& 0 <= sent.anchor <= bytes.len()
            &&& sent.cursor - sent.anchor == selection.active - selection.anchor
            // The text is cut at the cursor where the document is.
            &&& bytes == document.subrange(
                selection.active - sent.cursor,
                selection.active - sent.cursor + bytes.len(),
            )
            // Lines that are short enough are sent whole.
            &&& last_line(field).end - first_line(field).start <= 3800 ==> selection.active
                - sent.cursor == first_line(field).start && bytes.len() == last_line(field).end
                - first_line(field).start
            // Of longer ones, no more than some text around the selection.
            &&& last_line(field).end - first_line(field).start > 3800 ==> bytes.len()
                <= selection.high() - selection.low() + 111
        }),
{
    let selection = field.current_selection();
    let sent = sent_range(field);
    if lines_too_long(field) {
        lemma_boundary_before(field, cut_start(field), 11, selection.low());
        lemma_next_boundary_bounds(field, cut_end(field), 11);
        lemma_boundary_is_one(field, cut_start(field));
        lemma_boundary_is_one(field, cut_end(field));
    }
    assert(sent.start <= sent.end <= document.len());
    assert(vstd::utf8::encode_utf8(field.text_in(sent)) == document.subrange(
        sent.start as int,
        sent.end as int,
    ));
}

/// A boundary that lies ahead is not passed by.
proof fn lemma_boundary_before<H: InputHandler>(field: H, index: int, left: nat, ahead: usize)
    requires
        0 <= index <= ahead,
        field.boundary(ahead),
    ensures
        index <= next_boundary(field, index, left) <= index + left,
        next_boundary(field, index, left) <= ahead,
    decreases left,
{
    if !(field.boundary(index as usize) || left == 0) {
        lemma_boundary_before(field, index + 1, (left - 1) as nat, ahead);
    }
}

/// What is found is a boundary, if there is one within reach.
proof fn lemma_boundary_is_one<H: InputHandler>(field: H, index: int)
    requires
        0 <= index <= usize::MAX - 11,
        boundary_near(field, index),
    ensures
        field.boundary(next_boundary(field, index, 11) as usize),
{
    let k = choose|k: int| 0 <= k <= 11 && #[trigger] field.boundary((index + k) as usize);
    lemma_boundary_within(field, index, 11, index + k);
}

proof fn lemma_boundary_within<H: InputHandler>(field: H, index: int, left: nat, found: int)
    requires
        0 <= index <= found <= index + left <= usize::MAX,
        field.boundary(found as usize),
    ensures
        field.boundary(next_boundary(field, index, left) as usize),
    decreases left,
{
    if !(field.boundary(index as usize) || left == 0) {
        lemma_boundary_within(field, index + 1, (left - 1) as nat, found);
    }
}

/// The input method is not told of the text that it composes itself: what is sent is what is before
/// that text and what is after it, and a caret in it is reported to be where it starts.
pub proof fn law_composed_text_is_not_sent<H: InputHandler>(
    request: SyncRequest,
    field: H,
    cause: ChangeCause,
    document: Seq<u8>,
)
    requires
        describes(request, field, cause),
        !lines_too_long(field),
        field.current_composition() matches Some(range) && first_line(field).start <= range.start
            <= range.end <= last_line(field).end,
        last_line(field).end <= document.len(),
        forall|range: Range<usize>|
            range.start <= range.end <= document.len() ==> vstd::utf8::encode_utf8(
                #[trigger] field.text_in(range),
            ) == document.subrange(range.start as int, range.end as int),
    ensures
        request.surrounding is Some,
        ({
            let composed = field.current_composition()->0;
            let sent = request.surrounding->0;
            let start = first_line(field).start;
            &&& vstd::utf8::encode_utf8(sent.text@) == document.subrange(
                start as int,
                composed.start as int,
            ) + document.subrange(composed.end as int, last_line(field).end as int)
            &&& composed.start <= field.current_selection().active < composed.end ==> sent.cursor
                == composed.start - start
            &&& composed.start <= field.current_selection().anchor < composed.end ==> sent.anchor
                == composed.start - start
            &&& field.current_selection().active < composed.start ==> sent.cursor
                == field.current_selection().active - start
        }),
{
    let composed = field.current_composition()->0;
    let start = first_line(field).start;
    let end = last_line(field).end;
    let before = Range { start, end: composed.start };
    let after = Range { start: composed.end, end };
    assert(vstd::utf8::encode_utf8(field.text_in(before)) == document.subrange(
        start as int,
        composed.start as int,
    ));
    if composed.end < end {
        text::lemma_text_concat(field.text_in(before), field.text_in(after));
        assert(vstd::utf8::encode_utf8(field.text_in(after)) == document.subrange(
            composed.end as int,
            end as int,
        ));
    } else {
        assert(document.subrange(composed.end as int, end as int) =~= Seq::<u8>::empty());
        assert(document.subrange(start as int, composed.start as int) + Seq::<u8>::empty()
            =~= document.subrange(start as int, composed.start as int));
    }
}

/// The line that places the cursor rectangle has the caret at one of its ends. For a caret on a
/// single line, that is all of the line up to it.
pub proof fn law_cursor_line_ends_at_the_caret<H: InputHandler>(field: H)
    ensures
        ({
            let selection = field.current_selection();
            let line = cursor_line(field);
            &&& line.start == selection.active || line.end == selection.active
            &&& selection.anchor == selection.active ==> line.end == selection.active && line.start
                == field.line_around(selection.active, Affinity::Downstream).start
            &&& selection.anchor < selection.active ==> line.start == selection.active && line.end
                == field.line_around(selection.anchor, Affinity::Upstream).end
        }),
{
}

/// Whatever is changed in a window, a field that was locked for it is given back, once and at the
/// end; a field that was not locked is not, and only the field that the change is about is told of.
pub proof fn law_locked_fields_are_given_back(
    change: TextFieldChange,
    locked: Option<TextFieldToken>,
)
    ensures
        ({
            let requests = requests_after(change, locked);
            &&& locked matches Some(field) ==> requests.len() > 0 && requests.last()
                == FieldRequest::Release(field)
            &&& forall|i: int|
                0 <= i < requests.len() ==> ((#[trigger] requests[i]) is Release ==> locked is Some
                    && i == requests.len() - 1)
            &&& change matches TextFieldChange::Updated(token, _) ==> (locked != Some(token)
                ==> forall|i: int|
                0 <= i < requests.len() ==> (#[trigger] requests[i]) is Release)
            &&& change matches TextFieldChange::Updated(token, event) ==> (locked == Some(token)
                ==> requests.len() == 2 && (event == Event::LayoutChanged ==> requests[0]
                == FieldRequest::SyncCursor) && (event != Event::LayoutChanged ==> requests[0]
                == FieldRequest::SyncState(ChangeCause::Other)))
            &&& change == TextFieldChange::Changed && locked is None ==> requests
                == seq![FieldRequest::Disable]
            &&& change == TextFieldChange::Changed && locked is Some ==> requests.len() == 3
                && requests[0] == FieldRequest::Enable && requests[1] == FieldRequest::SyncState(
                ChangeCause::Other,
            )
        }),
{
}

/// A hidden cursor, one before the text that it belongs to, keeps its distance to the start of the
/// document: counting on from it comes to the same place.
pub proof fn law_offsets_count_from_the_start(position: int)
    requires
        i32::MIN <= position <= i32::MAX,
    ensures
        position >= 0 ==> offset_at(position) == position,
        position < 0 ==> offset_at(position) - position == usize::MAX + 1,
{
}

/// A state that was reset holds nothing that waits to be applied, and keeps what it knows about the
/// window, the commits and whether anything changed.
pub proof fn law_reset_state_applies_nothing(
    active_window: Option<SurfaceId>,
    commit_count: u32,
    changed: bool,
    token: Option<TextFieldToken>,
)
    ensures
        ({
            let state = InputState::blank(active_window, commit_count, changed, token);
            &&& state.active_window == active_window && state.commit_count == commit_count
            &&& state.changed == changed && state.token == token
            &&& state.commit_string is None && state.preedit_string is None
            &&& state.delete_surrounding_before == 0 && state.delete_surrounding_after == 0
            &&& state.new_cursor_begin == 0 && state.new_cursor_end == 0
            &&& state.buffer_start is None
        }),
{
}

/// What is asked of the input method for a field that is taken up.
pub open spec fn taken_up(locked: Option<TextFieldToken>) -> Seq<FieldRequest> {
    match locked {
        Some(token) => seq![
            FieldRequest::Enable,
            FieldRequest::SyncState(ChangeCause::Other),
            FieldRequest::Release(token),
        ],
        None => Seq::empty(),
    }
}

/// The field of a window that is entered is taken up as one that the focus moves to is. A window
/// without one asks for nothing.
pub proof fn law_entered_fields_are_taken_up_like_others(token: TextFieldToken)
    ensures
        taken_up(Some(token)) == requests_after(TextFieldChange::Changed, Some(token)),
        taken_up(None).len() == 0,
        taken_up(Some(token)).first() is Enable,
        taken_up(Some(token)).last() == FieldRequest::Release(token),
        taken_up(Some(token)).contains(FieldRequest::SyncState(ChangeCause::Other)),
{
    let requests = taken_up(Some(token));
    assert(requests =~= requests_after(TextFieldChange::Changed, Some(token)));
    assert(requests[1] == FieldRequest::SyncState(ChangeCause::Other));
}

impl InputState {
    /// The state without the field that it had.
    pub open spec fn field_removed(self) -> InputState {
        if self.token is Some {
            Self::blank(self.active_window, self.commit_count, self.changed, None)
        } else {
            self
        }
    }

    /// The state with a field, if it did not have one.
    pub open spec fn field_set(self, token: TextFieldToken) -> InputState {
        if self.token is None {
            InputState { token: Some(token), ..self }
        } else {
            self
        }
    }

    /// The state after a field was described.
    pub open spec fn synced<H: InputHandler>(self, field: H) -> InputState {
        InputState {
            commit_count: (self.commit_count + 1) as u32,
            buffer_start: if selection_too_long(field) {
                None
            } else {
                Some(sent_range(field).start)
            },
            ..self
        }
    }

    /// The state with what the input method says, which waits until it says that it is done.
    pub open spec fn noted(self, event: InputMethodEvent) -> InputState {
        match event {
            InputMethodEvent::PreeditString { text, cursor_begin, cursor_end } => InputState {
                preedit_string: text,
                new_cursor_begin: cursor_begin,
                new_cursor_end: cursor_end,
                changed: true,
                ..self
            },
            InputMethodEvent::CommitString { text } => InputState {
                commit_string: text,
                changed: true,
                ..self
            },
            InputMethodEvent::DeleteSurroundingText { before_length, after_length } => InputState {
                delete_surrounding_before: before_length,
                delete_surrounding_after: after_length,
                changed: true,
                ..self
            },
        }
    }

    /// The state after the focus moved, or the focused field changed.
    pub open spec fn moved(self, change: TextFieldChange, locked: Option<TextFieldToken>) -> InputState {
        match change {
            TextFieldChange::Updated(_, _) => self,
            TextFieldChange::Changed => Self::blank(
                self.active_window,
                self.commit_count,
                self.changed,
                locked,
            ),
        }
    }

    /// The state after the input method left a window.
    pub open spec fn after_leaving(self, window_exists: bool) -> InputState {
        if window_exists {
            Self::blank(None, self.commit_count, true, None)
        } else {
            self
        }
    }

    /// What the input method says of one thing replaces what it said of it before and leaves the
    /// rest, so that the order of events of different kinds does not matter.
    pub proof fn law_events_are_kept_apart(self, first: InputMethodEvent, second: InputMethodEvent)
        ensures
            self.noted(first).changed,
            self.noted(first).token == self.token,
            self.noted(first).active_window == self.active_window,
            self.noted(first).commit_count == self.commit_count,
            self.noted(first).buffer_start == self.buffer_start,
            first is PreeditString == second is PreeditString && first is CommitString
                == second is CommitString ==> self.noted(first).noted(second) == self.noted(second),
            !(first is PreeditString == second is PreeditString && first is CommitString
                == second is CommitString) ==> self.noted(first).noted(second) == self.noted(
                second,
            ).noted(first),
            first matches InputMethodEvent::CommitString { text } ==> self.noted(first).commit_string
                == text && self.noted(first).preedit_string == self.preedit_string,
            first matches InputMethodEvent::PreeditString { text, cursor_begin, cursor_end }
                ==> self.noted(first).preedit_string == text && self.noted(first).commit_string
                == self.commit_string && self.noted(first).new_cursor_begin == cursor_begin
                && self.noted(first).new_cursor_end == cursor_end,
            first matches InputMethodEvent::DeleteSurroundingText { before_length, after_length }
                ==> self.noted(first).delete_surrounding_before == before_length && self.noted(
                first,
            ).delete_surrounding_after == after_length && self.noted(first).commit_string
                == self.commit_string,
    {
    }

    /// Without its field nothing that was said waits to be applied, and a field that is set then is
    /// the one that counts. A field that is there is not replaced.
    pub proof fn law_fields_are_set_one_at_a_time(
        self,
        token: TextFieldToken,
        other: TextFieldToken,
    )
        ensures
            self.field_removed().token is None,
            self.field_removed().active_window == self.active_window,
            self.field_removed().commit_count == self.commit_count,
            self.token is Some ==> self.field_removed().commit_string is None
                && self.field_removed().preedit_string is None
                && self.field_removed().buffer_start is None,
            self.field_removed().field_set(token).token == Some(token),
            self.field_set(token).token is Some,
            self.token is Some ==> self.field_set(token) == self,
            self.field_set(token).field_set(other) == self.field_set(token),
            self.field_set(token).commit_string == self.commit_string,
    {
    }

    /// Each description is counted. Where the text around the selection was sent, it is noted where
    /// it begins; what the input method said before still waits.
    pub proof fn law_descriptions_are_counted<H: InputHandler>(self, field: H)
        requires
            self.commit_count < u32::MAX,
        ensures
            self.synced(field).commit_count == self.commit_count + 1,
            (self.synced(field).buffer_start is None) == selection_too_long(field),
            self.synced(field).buffer_start matches Some(start) ==> start == sent_range(field).start,
            self.synced(field).token == self.token,
            self.synced(field).commit_string == self.commit_string,
            self.synced(field).preedit_string == self.preedit_string,
            self.synced(field).changed == self.changed,
    {
    }

    /// Nothing that was said for one field is applied to another. A field that only changes keeps
    /// what was said for it.
    pub proof fn law_moving_on_forgets_what_was_said(
        self,
        change: TextFieldChange,
        locked: Option<TextFieldToken>,
    )
        ensures
            change is Updated ==> self.moved(change, locked) == self,
            change is Changed ==> self.moved(change, locked).token == locked && self.moved(
                change,
                locked,
            ).commit_string is None && self.moved(change, locked).preedit_string is None
                && self.moved(change, locked).delete_surrounding_before == 0 && self.moved(
                change,
                locked,
            ).delete_surrounding_after == 0,
            self.moved(change, locked).active_window == self.active_window,
            self.moved(change, locked).commit_count == self.commit_count,
    {
    }

    /// A window that is left has no field any more, and nothing waits for it; the descriptions that
    /// were sent stay counted.
    pub proof fn law_left_windows_have_no_field(self)
        ensures
            self.after_leaving(true).active_window is None,
            self.after_leaving(true).token is None,
            self.after_leaving(true).commit_string is None,
            self.after_leaving(true).preedit_string is None,
            self.after_leaving(true).commit_count == self.commit_count,
            self.after_leaving(true).changed,
            self.after_leaving(false) == self,
    {
    }
}

} // verus!
