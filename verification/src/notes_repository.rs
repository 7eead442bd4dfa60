//! Where the notes are kept between two runs.
//!
//! The file itself is read and written by the program around this library.
//! Here stand the parts of that work that decide something: which file, what
//! an empty file means, and what can go wrong.

use vstd::prelude::*;

verus! {

/// Why the notes could not be read or written.
#[derive(Clone, Debug, PartialEq, Eq)]
pub enum StoreError {
    /// The file could not be opened, created, read or written.
    Io(String),
    /// What the file holds is no list of notes.
    Parse(String),
    /// The notes could not be written out as text.
    Serialize(String),
}

impl StoreError {
    /// What went wrong, as the outside reported it.
    pub open spec fn detail(self) -> Seq<char> {
        match self {
            StoreError::Io(detail) => detail@,
            StoreError::Parse(detail) => detail@,
            StoreError::Serialize(detail) => detail@,
        }
    }

    /// What went wrong, as the outside reported it.
    pub fn message(&self) -> (detail: String)
        ensures
            detail@ == self.detail(),
    {
        match self {
            StoreError::Io(detail) => detail.clone(),
            StoreError::Parse(detail) => detail.clone(),
            StoreError::Serialize(detail) => detail.clone(),
        }
    }
}

/// White space as Unicode defines it (the property `White_Space`).
pub open spec fn is_white_space(c: char) -> bool {
    let code = c as u32;
    ||| 0x09 <= code <= 0x0D
    ||| code == 0x20
    ||| code == 0x85
    ||| code == 0xA0
    ||| code == 0x1680
    ||| 0x2000 <= code <= 0x200A
    ||| code == 0x2028
    ||| code == 0x2029
    ||| code == 0x202F
    ||| code == 0x205F
    ||| code == 0x3000
}

/// The text holds nothing but white space.
pub open spec fn is_blank(text: Seq<char>) -> bool {
    forall|i: int| 0 <= i < text.len() ==> is_white_space(#[trigger] text[i])
}

/// Whether `c` is white space.
pub fn white_space(c: char) -> (white: bool)
    ensures
        white == is_white_space(c),
{
    let code = c as u32;
    (0x09 <= code && code <= 0x0D) || code == 0x20 || code == 0x85 || code == 0xA0 || code
        == 0x1680 || (0x2000 <= code && code <= 0x200A) || code == 0x2028 || code == 0x2029
        || code == 0x202F || code == 0x205F || code == 0x3000
}

/// The file that holds the notes.
pub struct NotesRepository {
    pub path: String,
}

impl NotesRepository {
    /// The repository kept in the file at `path`.
    pub fn new(path: &str) -> (repository: NotesRepository)
        ensures
            repository.path@ == path@,
    {
        Self { path: path.to_owned() }
    }

    /// Whether a file with these contents holds no notes at all: it does
    /// when there is nothing in it but white space. Such a file is read as
    /// an empty list, and is not handed to the parser.
    pub fn holds_nothing(contents: &str) -> (nothing: bool)
        ensures
            nothing == is_blank(contents@),
    {
        let ghost text = contents@;
        let mut nothing = true;
        for c in it: contents.chars()
            invariant
                text == contents@,
                it.seq() == text,
                nothing == is_blank(text.take(it.index())),
        {
            proof {
                let seen = text.take(it.index());
                let next = text.take(it.index() + 1);
                assert(forall|i: int| 0 <= i < seen.len() ==> seen[i] == next[i]);
                assert(next[it.index()] == c);
                if is_blank(seen) && is_white_space(c) {
                    assert forall|i: int| 0 <= i < next.len() implies is_white_space(
                        #[trigger] next[i],
                    ) by {
                        if i < seen.len() {
                            assert(next[i] == seen[i]);
                        }
                    }
                }
            }
            if !white_space(c) {
                nothing = false;
            }
        }
        proof {
            assert(text.take(text.len() as int) =~= text);
        }
        nothing
    }

    /// The file that a save writes first and then moves into place, so that
    /// a failed write leaves the notes as they were: the path with `.tmp`
    /// behind it.
    pub fn temp_path(&self) -> (path: String)
        ensures
            path@ == self.path@ + ".tmp"@,
    {
        let mut path = self.path.clone();
        path.append(".tmp");
        path
    }
}

} // verus!
