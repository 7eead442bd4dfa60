//! The editable body of one note: lines of text and a cursor.
//!
//! The buffer is a `tui_textarea::TextArea`. What Verus knows of it is the
//! contract of each call below, stated over the lines it holds and the place
//! of its cursor; the rules of this application (a move that would leave the
//! text does nothing) are verified on top of those contracts.

use crate::lines::are_single_lines;
use crate::lines::is_single_line;
use crate::lines::join_lines;
use crate::lines::join_text;
use crate::lines::lemma_split_nonempty;
use crate::lines::lemma_split_single_lines;
use crate::lines::split_lines;
use crate::lines::split_text;
use tui_textarea::CursorMove;
use tui_textarea::TextArea;
use vstd::prelude::*;

verus! {

/// One step of the cursor.
#[derive(Clone, Copy, Debug, PartialEq, Eq, Structural)]
pub enum Direction {
    Up,
    Down,
    Left,
    Right,
}

/// What a buffer is, mathematically: its lines, and the row and column of
/// its cursor. Columns count characters, and a cursor may stand behind the
/// last character of its line.
pub struct BufferView {
    pub lines: Seq<Seq<char>>,
    pub row: int,
    pub col: int,
}

impl BufferView {
    /// The cursor stands on a line of the text, at one of its columns or
    /// right behind its end.
    pub open spec fn in_bounds(self) -> bool {
        &&& 0 <= self.row < self.lines.len()
        &&& 0 <= self.col <= self.lines[self.row].len()
    }

    /// What holds of every buffer: the cursor stands inside the text, and no
    /// line holds a line break.
    pub open spec fn valid(self) -> bool {
        &&& self.in_bounds()
        &&& are_single_lines(self.lines)
    }

    /// The length of the line the cursor stands on.
    pub open spec fn line_len(self) -> int {
        self.lines[self.row].len() as int
    }

    /// `col`, or the end of line `row` where that comes first.
    pub open spec fn fit(self, row: int) -> int {
        if self.col <= self.lines[row].len() {
            self.col
        } else {
            self.lines[row].len() as int
        }
    }

    /// The buffer after one step of the cursor. A step that would leave the
    /// text changes nothing: the cursor neither wraps to a neighbouring line
    /// nor leaves its own. A step to another line keeps the column where that
    /// line is long enough, and stops at its end where it is not.
    pub open spec fn moved(self, direction: Direction) -> BufferView {
        match direction {
            Direction::Up => if self.row > 0 {
                BufferView { row: self.row - 1, col: self.fit(self.row - 1), ..self }
            } else {
                self
            },
            Direction::Down => if self.row + 1 < self.lines.len() {
                BufferView { row: self.row + 1, col: self.fit(self.row + 1), ..self }
            } else {
                self
            },
            Direction::Left => if self.col > 0 {
                BufferView { col: self.col - 1, ..self }
            } else {
                self
            },
            Direction::Right => if self.col < self.line_len() {
                BufferView { col: self.col + 1, ..self }
            } else {
                self
            },
        }
    }

    /// The buffer after a line break was put at the cursor: the line is cut
    /// in two there, and the cursor stands at the start of the second half.
    pub open spec fn with_newline(self) -> BufferView {
        let line = self.lines[self.row];
        BufferView {
            lines: self.lines.update(self.row, line.take(self.col)).insert(
                self.row + 1,
                line.skip(self.col),
            ),
            row: self.row + 1,
            col: 0,
        }
    }

    /// The buffer after `c` was typed at the cursor. A line feed or a
    /// carriage return breaks the line; any other character is put into the
    /// line at the cursor, which moves behind it.
    pub open spec fn with_char(self, c: char) -> BufferView {
        if c == '\n' || c == '\r' {
            self.with_newline()
        } else {
            BufferView {
                lines: self.lines.update(self.row, self.lines[self.row].insert(self.col, c)),
                col: self.col + 1,
                ..self
            }
        }
    }

    /// The buffer after what stands before the cursor was deleted: the
    /// character before it; at the start of a line, the line break before
    /// it, which joins the line to the one above; at the start of the text,
    /// nothing.
    pub open spec fn without_previous(self) -> BufferView {
        if self.col > 0 {
            BufferView {
                lines: self.lines.update(self.row, self.lines[self.row].remove(self.col - 1)),
                col: self.col - 1,
                ..self
            }
        } else if self.row > 0 {
            let above = self.lines[self.row - 1];
            BufferView {
                lines: self.lines.update(self.row - 1, above + self.lines[self.row]).remove(
                    self.row,
                ),
                row: self.row - 1,
                col: above.len() as int,
            }
        } else {
            self
        }
    }

    /// Where `tui_textarea` puts the cursor on one step: as `moved`, but
    /// that a step right at the end of a line goes to the start of the next
    /// line, and a step left at the start of a line to the end of the line
    /// above.
    pub open spec fn area_moved(self, direction: Direction) -> BufferView {
        match direction {
            Direction::Right => if self.col >= self.line_len() {
                if self.row + 1 < self.lines.len() {
                    BufferView { row: self.row + 1, col: 0, ..self }
                } else {
                    self
                }
            } else {
                BufferView { col: self.col + 1, ..self }
            },
            Direction::Left => if self.col == 0 {
                if self.row > 0 {
                    BufferView {
                        row: self.row - 1,
                        col: self.lines[self.row - 1].len() as int,
                        ..self
                    }
                } else {
                    self
                }
            } else {
                BufferView { col: self.col - 1, ..self }
            },
            Direction::Up => self.moved(Direction::Up),
            Direction::Down => self.moved(Direction::Down),
        }
    }
}

/// A text buffer: the lines of one note's body and a cursor in them.
///
/// It holds a `tui_textarea::TextArea`, of which Verus sees nothing: a
/// buffer is known by `area_lines`, `area_cursor` and `area_selecting` alone.
#[verifier::external_body]
pub struct TextBuffer {
    area: TextArea<'static>,
}

/// The lines that the buffer's `TextArea` holds, each as its characters.
pub uninterp spec fn area_lines(buffer: TextBuffer) -> Seq<Seq<char>>;

/// Row and column of the cursor of the buffer's `TextArea`, both from 0, the
/// column counted in characters.
pub uninterp spec fn area_cursor(buffer: TextBuffer) -> (usize, usize);

/// Whether a selection is open in the buffer's `TextArea`.
pub uninterp spec fn area_selecting(buffer: TextBuffer) -> bool;

/// `TextArea::new`: takes the lines as they are given, or one empty line
/// where none is given; the cursor stands at the start of the first line and
/// no selection is open.
#[verifier::external_body]
fn area_new(lines: Vec<String>) -> (buffer: TextBuffer)
    ensures
        lines@.len() > 0 ==> area_lines(buffer) == lines@.map_values(|line: String| line@),
        lines@.len() == 0 ==> area_lines(buffer) == seq![Seq::<char>::empty()],
        area_cursor(buffer) == (0usize, 0usize),
        !area_selecting(buffer),
{
    TextBuffer { area: TextArea::new(lines) }
}

/// `TextArea::lines`: the lines held, in order.
#[verifier::external_body]
fn area_rows(buffer: &TextBuffer) -> (rows: &[String])
    ensures
        rows@.map_values(|line: String| line@) == area_lines(*buffer),
{
    buffer.area.lines()
}

/// `TextArea::cursor`: row and column of the cursor.
#[verifier::external_body]
fn area_position(buffer: &TextBuffer) -> (at: (usize, usize))
    ensures
        at == area_cursor(*buffer),
{
    buffer.area.cursor()
}

/// `TextArea::move_cursor` with `Up`, `Down`, `Back` or `Forward`: the
/// lines stay, the cursor goes where `area_moved` says, and no selection is
/// opened.
#[verifier::external_body]
fn area_move(buffer: &mut TextBuffer, direction: Direction)
    requires
        old(buffer)@.in_bounds(),
        !area_selecting(*old(buffer)),
    ensures
        final(buffer)@ == old(buffer)@.area_moved(direction),
        !area_selecting(*final(buffer)),
{
    buffer.area.move_cursor(
        match direction {
            Direction::Up => CursorMove::Up,
            Direction::Down => CursorMove::Down,
            Direction::Left => CursorMove::Back,
            Direction::Right => CursorMove::Forward,
        },
    )
}

/// `TextArea::insert_char` with no selection open: a line feed or a carriage
/// return breaks the line at the cursor; any other character is put into the
/// line at the cursor, which moves one column on.
#[verifier::external_body]
fn area_insert_char(buffer: &mut TextBuffer, c: char)
    requires
        old(buffer)@.in_bounds(),
        !area_selecting(*old(buffer)),
    ensures
        final(buffer)@ == old(buffer)@.with_char(c),
        !area_selecting(*final(buffer)),
{
    buffer.area.insert_char(c)
}

/// `TextArea::insert_newline` with no selection open: the line is cut at
/// the cursor, what stood behind the cursor becomes the next line, and the
/// cursor goes to the start of that line.
#[verifier::external_body]
fn area_insert_newline(buffer: &mut TextBuffer)
    requires
        old(buffer)@.in_bounds(),
        !area_selecting(*old(buffer)),
    ensures
        final(buffer)@ == old(buffer)@.with_newline(),
        !area_selecting(*final(buffer)),
{
    buffer.area.insert_newline()
}

/// `TextArea::delete_char` with no selection open: the character before
/// the cursor leaves; at the start of a line the line is joined to the one
/// above and the cursor stands where they meet; at the start of the text
/// nothing changes.
#[verifier::external_body]
fn area_delete_char(buffer: &mut TextBuffer)
    requires
        old(buffer)@.in_bounds(),
        !area_selecting(*old(buffer)),
    ensures
        final(buffer)@ == old(buffer)@.without_previous(),
        !area_selecting(*final(buffer)),
{
    buffer.area.delete_char();
}

impl View for TextBuffer {
    type V = BufferView;

    open spec fn view(&self) -> BufferView {
        BufferView {
            lines: area_lines(*self),
            row: area_cursor(*self).0 as int,
            col: area_cursor(*self).1 as int,
        }
    }
}

/// Cutting a line, or taking a character out of it, leaves it without line
/// breaks; so does putting in a character that is none, and so does joining
/// it to another such line.
proof fn lemma_single_line_parts(line: Seq<char>, at: int, c: char, other: Seq<char>)
    requires
        is_single_line(line),
        0 <= at <= line.len(),
    ensures
        is_single_line(line.take(at)),
        is_single_line(line.skip(at)),
        c != '\n' ==> is_single_line(line.insert(at, c)),
        at > 0 ==> is_single_line(line.remove(at - 1)),
        is_single_line(other) ==> is_single_line(other + line),
{
    assert forall|i: int| 0 <= i < line.skip(at).len() implies line.skip(at)[i] != '\n' by {
        assert(line.skip(at)[i] == line[i + at]);
    }
    if c != '\n' {
        let longer = line.insert(at, c);
        assert forall|i: int| 0 <= i < longer.len() implies longer[i] != '\n' by {
            if i < at {
                assert(longer[i] == line[i]);
            } else if i > at {
                assert(longer[i] == line[i - 1]);
            }
        }
    }
    if at > 0 {
        let shorter = line.remove(at - 1);
        assert forall|i: int| 0 <= i < shorter.len() implies shorter[i] != '\n' by {
            if i < at - 1 {
                assert(shorter[i] == line[i]);
            } else {
                assert(shorter[i] == line[i + 1]);
            }
        }
    }
    if is_single_line(other) {
        let both = other + line;
        assert forall|i: int| 0 <= i < both.len() implies both[i] != '\n' by {
            if i < other.len() {
                assert(both[i] == other[i]);
            } else {
                assert(both[i] == line[i - other.len()]);
            }
        }
    }
}

impl BufferView {
    /// A step of the cursor leaves the text as it is and the cursor inside
    /// it.
    pub proof fn lemma_moved_valid(self, direction: Direction)
        requires
            self.valid(),
        ensures
            self.moved(direction).valid(),
            self.moved(direction).lines == self.lines,
    {
    }

    /// A line break at the cursor leaves the buffer valid, with one line
    /// more.
    pub proof fn lemma_with_newline_valid(self)
        requires
            self.valid(),
        ensures
            self.with_newline().valid(),
            self.with_newline().lines.len() == self.lines.len() + 1,
    {
        lemma_single_line_parts(self.lines[self.row], self.col, ' ', Seq::<char>::empty());
    }

    /// A character typed at the cursor leaves the buffer valid.
    pub proof fn lemma_with_char_valid(self, c: char)
        requires
            self.valid(),
        ensures
            self.with_char(c).valid(),
    {
        self.lemma_with_newline_valid();
        lemma_single_line_parts(self.lines[self.row], self.col, c, Seq::<char>::empty());
    }

    /// A backspace leaves the buffer valid.
    pub proof fn lemma_without_previous_valid(self)
        requires
            self.valid(),
        ensures
            self.without_previous().valid(),
    {
        if self.col > 0 {
            lemma_single_line_parts(self.lines[self.row], self.col, ' ', Seq::<char>::empty());
        } else if self.row > 0 {
            lemma_single_line_parts(self.lines[self.row], 0, ' ', self.lines[self.row - 1]);
        }
    }
}

impl TextBuffer {
    /// What every buffer of this library satisfies: the cursor stands inside
    /// the text, no line holds a line break, and no selection is open.
    pub open spec fn wf(&self) -> bool {
        &&& self@.valid()
        &&& !area_selecting(*self)
    }

    /// An empty buffer: one empty line, the cursor at its start.
    pub fn new() -> (buffer: TextBuffer)
        ensures
            buffer.wf(),
            buffer@.lines == seq![Seq::<char>::empty()],
            buffer@.row == 0,
            buffer@.col == 0,
    {
        area_new(Vec::new())
    }

    /// The buffer that holds the lines of `text`, the cursor at the start of
    /// the first.
    pub fn from_text(text: &str) -> (buffer: TextBuffer)
        ensures
            buffer.wf(),
            buffer@.lines == split_lines(text@),
            buffer@.row == 0,
            buffer@.col == 0,
    {
        let lines = split_text(text);
        proof {
            lemma_split_nonempty(text@);
            lemma_split_single_lines(text@);
            assert(lines@.map_values(|line: String| line@) =~= split_lines(text@));
        }
        area_new(lines)
    }

    /// Moves the cursor one step. A step that would leave the text does
    /// nothing.
    pub fn move_cursor(&mut self, direction: Direction)
        requires
            old(self).wf(),
        ensures
            final(self).wf(),
            final(self)@ == old(self)@.moved(direction),
    {
        let (row, col) = area_position(self);
        let stays = match direction {
            Direction::Up | Direction::Down => false,
            Direction::Left => col == 0,
            Direction::Right => {
                let rows = area_rows(self);
                assert(rows@[row as int]@ == area_lines(*self)[row as int]);
                col >= rows[row].as_str().unicode_len()
            },
        };
        if !stays {
            area_move(self, direction);
        }
    }

    /// Puts `c` into the text at the cursor and moves the cursor behind it.
    /// A line feed or a carriage return breaks the line instead.
    pub fn insert_character(&mut self, c: char)
        requires
            old(self).wf(),
        ensures
            final(self).wf(),
            final(self)@ == old(self)@.with_char(c),
    {
        proof {
            self@.lemma_with_char_valid(c);
        }
        area_insert_char(self, c);
    }

    /// Breaks the line at the cursor; the cursor goes to the start of the
    /// new line.
    pub fn insert_newline(&mut self)
        requires
            old(self).wf(),
        ensures
            final(self).wf(),
            final(self)@ == old(self)@.with_newline(),
    {
        proof {
            self@.lemma_with_newline_valid();
        }
        area_insert_newline(self);
    }

    /// Deletes what stands before the cursor: a character, or at the start
    /// of a line the break that parts it from the line above. At the start
    /// of the text it does nothing.
    pub fn delete_backward(&mut self)
        requires
            old(self).wf(),
        ensures
            final(self).wf(),
            final(self)@ == old(self)@.without_previous(),
    {
        proof {
            self@.lemma_without_previous_valid();
        }
        area_delete_char(self);
    }

    /// The text of the buffer: its lines with a line break between each two.
    pub fn as_text(&self) -> (text: String)
        ensures
            text@ == join_lines(self@.lines),
    {
        join_text(area_rows(self))
    }

    /// Row and column of the cursor.
    pub fn cursor(&self) -> (at: (usize, usize))
        ensures
            at.0 == self@.row,
            at.1 == self@.col,
    {
        area_position(self)
    }

    /// The number of lines.
    pub fn line_count(&self) -> (count: usize)
        ensures
            count == self@.lines.len(),
    {
        let rows = area_rows(self);
        assert(rows@.len() == rows@.map_values(|line: String| line@).len());
        rows.len()
    }

    /// A copy of the lines, in order.
    pub fn lines(&self) -> (lines: Vec<String>)
        ensures
            lines@.map_values(|line: String| line@) == self@.lines,
    {
        let rows = area_rows(self);
        let mut lines: Vec<String> = Vec::new();
        let mut i: usize = 0;
        while i < rows.len()
            invariant
                i <= rows.len(),
                lines@.len() == i,
                forall|k: int| 0 <= k < i ==> (#[trigger] lines@[k])@ == rows@[k]@,
            decreases rows.len() - i,
        {
            lines.push(rows[i].clone());
            i = i + 1;
        }
        assert(lines@.map_values(|line: String| line@) =~= rows@.map_values(|line: String| line@));
        lines
    }
}

} // verus!
