//! A note: a title, a body that can be edited, and the date it was made.

use crate::lines::join_lines;
use crate::lines::split_lines;
use crate::text_buffer::BufferView;
use crate::text_buffer::Direction;
use crate::text_buffer::TextBuffer;
use vstd::prelude::*;

verus! {

/// A note as it is kept in the file: three texts, the body in one piece with
/// a line break between each two lines.
#[derive(Clone, Debug, PartialEq, Eq)]
pub struct JsonNote {
    pub title: String,
    pub body: String,
    pub date_created: String,
}

/// What a stored note is, mathematically.
pub struct RecordView {
    pub title: Seq<char>,
    pub body: Seq<char>,
    pub date_created: Seq<char>,
}

impl View for JsonNote {
    type V = RecordView;

    open spec fn view(&self) -> RecordView {
        RecordView { title: self.title@, body: self.body@, date_created: self.date_created@ }
    }
}

/// What a note is, mathematically.
pub struct NoteView {
    pub title: Seq<char>,
    pub body: BufferView,
    pub date_created: Seq<char>,
}

impl NoteView {
    /// The body is a valid buffer.
    pub open spec fn valid(self) -> bool {
        self.body.valid()
    }

    /// The note with another body.
    pub open spec fn with_body(self, body: BufferView) -> NoteView {
        NoteView { body, ..self }
    }

    /// The note that is made of a stored note: the body cut into its lines,
    /// the cursor at the start of the first.
    pub open spec fn of_record(record: RecordView) -> NoteView {
        NoteView {
            title: record.title,
            body: BufferView { lines: split_lines(record.body), row: 0, col: 0 },
            date_created: record.date_created,
        }
    }

    /// The note as it is stored: the lines of the body joined.
    pub open spec fn record(self) -> RecordView {
        RecordView {
            title: self.title,
            body: join_lines(self.body.lines),
            date_created: self.date_created,
        }
    }

    /// The note that starts with a title alone: one empty line for a body.
    pub open spec fn fresh(title: Seq<char>, date_created: Seq<char>) -> NoteView {
        NoteView {
            title,
            body: BufferView { lines: seq![Seq::<char>::empty()], row: 0, col: 0 },
            date_created,
        }
    }
}

/// A note of the list.
pub struct Note {
    title: String,
    body: TextBuffer,
    date_created: String,
}

impl View for Note {
    type V = NoteView;

    closed spec fn view(&self) -> NoteView {
        NoteView { title: self.title@, body: self.body@, date_created: self.date_created@ }
    }
}

impl Note {
    /// The body is a buffer as this library builds them.
    pub closed spec fn body_wf(&self) -> bool {
        self.body.wf()
    }

    /// What every note of this library satisfies.
    pub open spec fn wf(&self) -> bool {
        &&& self.body_wf()
        &&& self@.valid()
    }

    /// A new note with this title, an empty body and this date.
    pub fn new(title: String, date_created: String) -> (note: Note)
        ensures
            note.wf(),
            note@ == NoteView::fresh(title@, date_created@),
    {
        Note { title, body: TextBuffer::new(), date_created }
    }

    /// The note that a stored note stands for.
    pub fn from_record(record: &JsonNote) -> (note: Note)
        ensures
            note.wf(),
            note@ == NoteView::of_record(record@),
    {
        let body = TextBuffer::from_text(record.body.as_str());
        Note { title: record.title.clone(), body, date_created: record.date_created.clone() }
    }

    /// The note as it is stored.
    pub fn to_record(&self) -> (record: JsonNote)
        ensures
            record@ == self@.record(),
    {
        JsonNote {
            title: self.title.clone(),
            body: self.body.as_text(),
            date_created: self.date_created.clone(),
        }
    }

    /// The title.
    pub fn title(&self) -> (title: &String)
        ensures
            title@ == self@.title,
    {
        &self.title
    }

    /// The date the note was made, as it was given then.
    pub fn date_created(&self) -> (date: &String)
        ensures
            date@ == self@.date_created,
    {
        &self.date_created
    }

    /// The body.
    pub fn body(&self) -> (body: &TextBuffer)
        ensures
            body@ == self@.body,
    {
        &self.body
    }

    /// Moves the cursor of the body one step; see `TextBuffer::move_cursor`.
    pub fn move_cursor(&mut self, direction: Direction)
        requires
            old(self).wf(),
        ensures
            final(self).wf(),
            final(self)@ == old(self)@.with_body(old(self)@.body.moved(direction)),
    {
        self.body.move_cursor(direction);
    }

    /// Types `c` into the body; see `TextBuffer::insert_character`.
    pub fn insert_character(&mut self, c: char)
        requires
            old(self).wf(),
        ensures
            final(self).wf(),
            final(self)@ == old(self)@.with_body(old(self)@.body.with_char(c)),
    {
        self.body.insert_character(c);
    }

    /// Breaks the line of the body at the cursor; see
    /// `TextBuffer::insert_newline`.
    pub fn insert_newline(&mut self)
        requires
            old(self).wf(),
        ensures
            final(self).wf(),
            final(self)@ == old(self)@.with_body(old(self)@.body.with_newline()),
    {
        self.body.insert_newline();
    }

    /// Deletes what stands before the cursor of the body; see
    /// `TextBuffer::delete_backward`.
    pub fn delete_backward(&mut self)
        requires
            old(self).wf(),
        ensures
            final(self).wf(),
            final(self)@ == old(self)@.with_body(old(self)@.body.without_previous()),
    {
        self.body.delete_backward();
    }
}

} // verus!
