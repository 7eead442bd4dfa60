//! The title of a note while it is being typed.
//!
//! The characters are kept in a `tui_input::Input`, whose cursor this
//! library leaves at the end: a title grows and shrinks at its end only.

use tui_input::Input;
use tui_input::InputRequest;
use vstd::prelude::*;

verus! {

/// The greatest number of characters that a title may have.
pub const MAX_TITLE_LEN: usize = 80;

/// The smallest number of characters that a title must have.
pub const MIN_TITLE_LEN: usize = 3;

/// `tui_input::Input`, of which Verus sees nothing inside.
#[verifier::external_type_specification]
#[verifier::external_body]
pub struct ExInput(Input);

/// The characters that the input holds.
pub uninterp spec fn input_text(input: Input) -> Seq<char>;

/// The place of the input's cursor, counted in characters from 0.
pub uninterp spec fn input_cursor(input: Input) -> usize;

/// `Input::default`: no characters, the cursor at 0.
pub assume_specification[ <Input as Default>::default ]() -> (input: Input)
    ensures
        input_text(input) == Seq::<char>::empty(),
        input_cursor(input) == 0,
;

/// `Input::value`: the characters held.
pub assume_specification<'a>[ Input::value ](input: &'a Input) -> (text: &'a str)
    ensures
        text@ == input_text(*input),
;

/// A change to a title at the cursor.
#[derive(Clone, Copy)]
enum DraftEdit {
    /// Put this character at the cursor.
    Insert(char),
    /// Take away the character before the cursor.
    DeletePrevious,
}

/// `Input::handle` with `InsertChar` or `DeletePrevChar`, the cursor not
/// behind the end: the character goes in at the cursor, which moves one on;
/// or the character before the cursor leaves and the cursor moves one
/// back, and nothing changes where the cursor stands at 0.
#[verifier::external_body]
fn input_handle(input: &mut Input, edit: DraftEdit)
    requires
        input_cursor(*old(input)) <= input_text(*old(input)).len(),
    ensures
        match edit {
            DraftEdit::Insert(c) => {
                &&& input_text(*final(input)) == input_text(*old(input)).insert(
                    input_cursor(*old(input)) as int,
                    c,
                )
                &&& input_cursor(*final(input)) == input_cursor(*old(input)) + 1
            },
            DraftEdit::DeletePrevious => if input_cursor(*old(input)) == 0 {
                &&& input_text(*final(input)) == input_text(*old(input))
                &&& input_cursor(*final(input)) == 0
            } else {
                &&& input_text(*final(input)) == input_text(*old(input)).remove(
                    input_cursor(*old(input)) - 1,
                )
                &&& input_cursor(*final(input)) == input_cursor(*old(input)) - 1
            },
        },
{
    input.handle(
        match edit {
            DraftEdit::Insert(c) => InputRequest::InsertChar(c),
            DraftEdit::DeletePrevious => InputRequest::DeletePrevChar,
        },
    );
}

/// The title of the note that is being created.
pub struct Draft {
    input: Input,
}

impl View for Draft {
    type V = Seq<char>;

    closed spec fn view(&self) -> Seq<char> {
        input_text(self.input)
    }
}

/// The title after `c` was typed: `c` at its end, unless the title is full.
pub open spec fn typed(title: Seq<char>, c: char) -> Seq<char> {
    if title.len() < MAX_TITLE_LEN {
        title.push(c)
    } else {
        title
    }
}

/// The title after a backspace: without its last character, if it has one.
pub open spec fn erased(title: Seq<char>) -> Seq<char> {
    if title.len() > 0 {
        title.drop_last()
    } else {
        title
    }
}

/// Whether the title is long enough to name a note.
pub open spec fn is_title(title: Seq<char>) -> bool {
    title.len() >= MIN_TITLE_LEN
}

impl Draft {
    /// The cursor of the input stands at the end of the title.
    pub closed spec fn cursor_at_end(&self) -> bool {
        input_cursor(self.input) == self@.len()
    }

    /// What every draft of this library satisfies: the cursor stands at
    /// the end, and the title is no longer than a title may be.
    pub open spec fn wf(&self) -> bool {
        &&& self.cursor_at_end()
        &&& self@.len() <= MAX_TITLE_LEN
    }

    /// An empty draft.
    pub fn new() -> (draft: Draft)
        ensures
            draft.wf(),
            draft@ == Seq::<char>::empty(),
    {
        Draft { input: Input::default() }
    }

    /// Types `c` at the end of the title. A full title stays as it is.
    pub fn push(&mut self, c: char)
        requires
            old(self).wf(),
        ensures
            final(self).wf(),
            final(self)@ == typed(old(self)@, c),
    {
        if self.input.value().unicode_len() < MAX_TITLE_LEN {
            input_handle(&mut self.input, DraftEdit::Insert(c));
            assert(self@ =~= old(self)@.push(c));
        }
    }

    /// Takes the last character off the title, if there is one.
    pub fn pop(&mut self)
        requires
            old(self).wf(),
        ensures
            final(self).wf(),
            final(self)@ == erased(old(self)@),
    {
        input_handle(&mut self.input, DraftEdit::DeletePrevious);
        assert(self@ =~= erased(old(self)@));
    }

    /// Empties the draft.
    pub fn clear(&mut self)
        ensures
            final(self).wf(),
            final(self)@ == Seq::<char>::empty(),
    {
        self.input = Input::default();
    }

    /// The title typed so far.
    pub fn text(&self) -> (title: String)
        ensures
            title@ == self@,
    {
        self.input.value().to_owned()
    }

    /// The number of characters typed so far.
    pub fn len(&self) -> (count: usize)
        ensures
            count == self@.len(),
    {
        self.input.value().unicode_len()
    }

    /// Whether the title typed so far is long enough to name a note.
    pub fn is_title(&self) -> (enough: bool)
        ensures
            enough == is_title(self@),
    {
        self.input.value().unicode_len() >= MIN_TITLE_LEN
    }
}

} // verus!
