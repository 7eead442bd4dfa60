//! A notebook for the terminal: a list of notes, each with a title and a body
//! of several lines, kept in one file.
//!
//! This library is the notebook without its terminal: the notes, the cursor
//! of the list, the text buffers, and what each key press does to them.

pub mod draft;
pub mod keys;
pub mod laws;
pub mod lines;
pub mod navigation;
pub mod note;
pub mod notes_app;
pub mod notes_repository;
pub mod text_buffer;

pub use crate::draft::Draft;
pub use crate::keys::Key;
pub use crate::keys::KeyPress;
pub use crate::navigation::Navigation;
pub use crate::note::JsonNote;
pub use crate::note::Note;
pub use crate::notes_app::Action;
pub use crate::notes_app::App;
pub use crate::notes_app::CurrentScreen;
pub use crate::notes_app::InputMode;
pub use crate::notes_repository::NotesRepository;
pub use crate::notes_repository::StoreError;
pub use crate::text_buffer::Direction;
pub use crate::text_buffer::TextBuffer;
