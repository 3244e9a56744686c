//! The text buffer of the add-channel dialog. It is a `tui_textarea::TextArea`
//! and stays one: the widget edits, this module names what it holds so that
//! contracts can speak of it.

use vstd::prelude::*;
use tui_textarea::TextArea;
use crate::model::texts;

verus! {

/// The editable buffer behind the add-channel dialog.
#[verifier::external_body]
pub struct TextBuffer {
    pub area: TextArea<'static>,
}

/// The lines that a buffer holds, first line first.
pub uninterp spec fn buffer_lines(buffer: TextBuffer) -> Seq<Seq<char>>;

/// Where the cursor of a buffer stands: the line, and the number of
/// characters before it in that line.
pub uninterp spec fn buffer_cursor(buffer: TextBuffer) -> (nat, nat);

/// Where a selection that is under way in a buffer began, as line and
/// character.
pub uninterp spec fn buffer_selection(buffer: TextBuffer) -> Option<(nat, nat)>;

/// What `TextArea::insert_str` leaves of lines and cursor, on a text area
/// with the given lines, cursor and start of selection, and the given text.
pub uninterp spec fn text_inserted(
    lines: Seq<Seq<char>>,
    cursor: (nat, nat),
    selection: Option<(nat, nat)>,
    text: Seq<char>,
) -> (Seq<Seq<char>>, (nat, nat));

/// A buffer as plain values.
pub struct BufferView {
    pub lines: Seq<Seq<char>>,
    /// Line and character of the cursor.
    pub cursor: (nat, nat),
    /// Where a selection that is under way began.
    pub selection: Option<(nat, nat)>,
}

impl View for TextBuffer {
    type V = BufferView;

    open spec fn view(&self) -> BufferView {
        BufferView {
            lines: buffer_lines(*self),
            cursor: buffer_cursor(*self),
            selection: buffer_selection(*self),
        }
    }
}

impl BufferView {
    /// The buffer as the dialog finds it when it opens: one empty line, the
    /// cursor at its head, nothing selected.
    pub open spec fn clear() -> BufferView {
        BufferView { lines: seq![Seq::<char>::empty()], cursor: (0, 0), selection: None }
    }

    /// The buffer after `text` was inserted at the cursor. A selection that
    /// was under way is over.
    pub open spec fn inserted(self, text: Seq<char>) -> BufferView {
        BufferView {
            lines: text_inserted(self.lines, self.cursor, self.selection, text).0,
            cursor: text_inserted(self.lines, self.cursor, self.selection, text).1,
            selection: None,
        }
    }

    /// Whether `text` goes into the line of the cursor as it is: nothing is
    /// selected, the cursor stands in a line, and the text neither holds a
    /// line feed nor ends in a carriage return.
    pub open spec fn takes_plainly(self, text: Seq<char>) -> bool {
        &&& self.selection is None
        &&& self.cursor.0 < self.lines.len()
        &&& self.cursor.1 <= self.lines[self.cursor.0 as int].len()
        &&& !text.contains('\n')
        &&& (text.len() > 0 ==> text.last() != '\r')
    }

    /// The buffer with `text` put into the line of the cursor, before the
    /// character at which the cursor stands, and the cursor behind the text.
    pub open spec fn with_text_at_cursor(self, text: Seq<char>) -> BufferView {
        let row = self.cursor.0 as int;
        let col = self.cursor.1 as int;
        let line = self.lines[row];
        BufferView {
            lines: self.lines.update(
                row,
                line.subrange(0, col) + text + line.subrange(col, line.len() as int),
            ),
            cursor: (self.cursor.0, self.cursor.1 + text.len()),
            selection: None,
        }
    }
}

/// `TextArea::default`: a text area whose content is one empty line, with
/// the cursor at its head and no selection under way.
#[verifier::external_body]
pub(crate) fn empty_buffer() -> (buffer: TextBuffer)
    ensures
        buffer_lines(buffer) == seq![Seq::<char>::empty()],
        buffer_cursor(buffer) == (0nat, 0nat),
        buffer_selection(buffer) is None,
{
    TextBuffer { area: TextArea::default() }
}

/// `TextArea::lines`, copied out. A text area holds at least one line at
/// all times.
#[verifier::external_body]
pub(crate) fn lines_of(buffer: &TextBuffer) -> (lines: Vec<String>)
    ensures
        texts(lines@) == buffer_lines(*buffer),
        lines@.len() >= 1,
{
    buffer.area.lines().to_vec()
}

/// `TextArea::insert_str`: ends a selection, removing what was selected, and
/// inserts the text where the cursor then stands, a line feed starting a new
/// line. What that leaves is named. For text of one line with nothing
/// selected it is spelt out: the text goes into the cursor's line at the
/// cursor, and the cursor moves behind it.
#[verifier::external_body]
pub(crate) fn insert_text(buffer: &mut TextBuffer, text: &str) -> (inserted: bool)
    ensures
        (buffer_lines(*final(buffer)), buffer_cursor(*final(buffer))) == text_inserted(
            buffer_lines(*old(buffer)),
            buffer_cursor(*old(buffer)),
            buffer_selection(*old(buffer)),
            text@,
        ),
        buffer_selection(*final(buffer)) is None,
        old(buffer)@.takes_plainly(text@) ==> final(buffer)@ == old(buffer)@.with_text_at_cursor(
            text@,
        ),
{
    buffer.area.insert_str(text)
}

/// Text of one line that is inserted into a clear buffer is then the one
/// line of the buffer, with the cursor behind it.
pub proof fn lemma_insert_into_clear(text: Seq<char>)
    requires
        !text.contains('\n'),
        text.len() > 0 ==> text.last() != '\r',
    ensures
        BufferView::clear().takes_plainly(text),
        BufferView::clear().with_text_at_cursor(text) == (BufferView {
            lines: seq![text],
            cursor: (0, text.len()),
            selection: None,
        }),
{
    let clear = BufferView::clear();
    let line = clear.lines[0];
    assert(line.subrange(0, 0) + text + line.subrange(0, 0) =~= text);
    assert(clear.with_text_at_cursor(text).lines =~= seq![text]);
}

} // verus!
