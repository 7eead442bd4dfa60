//! The application: which screen is shown, which mode it is in, and what
//! each key press does to the notes.
//!
//! `AppView::step` is the whole behaviour as one function from a state and a
//! key press to the next state. `App` holds the state and takes the steps;
//! the program around it draws the state, reads the keys and writes the
//! file when a step asks for it.

use crate::draft::erased;
use crate::draft::is_title;
use crate::draft::typed;
use crate::draft::Draft;
use crate::draft::MAX_TITLE_LEN;
use crate::keys::Key;
use crate::keys::KeyPress;
use crate::navigation::clamped;
use crate::navigation::fits;
use crate::navigation::next_selected;
use crate::navigation::previous_selected;
use crate::navigation::Navigation;
use crate::note::JsonNote;
use crate::note::Note;
use crate::note::NoteView;
use crate::note::RecordView;
use crate::notes_repository::NotesRepository;
use crate::notes_repository::StoreError;
use crate::text_buffer::BufferView;
use crate::text_buffer::Direction;
use vstd::prelude::*;

verus! {

/// Whether keys are commands or text.
#[derive(Clone, Copy, Debug, PartialEq, Eq, Structural)]
pub enum InputMode {
    Normal,
    Insert,
}

/// What is shown.
#[derive(Clone, Copy, Debug, PartialEq, Eq, Structural)]
pub enum CurrentScreen {
    /// The list of notes.
    List,
    /// The body of the selected note.
    Edit,
    /// The key bindings, over one of the two screens above.
    Help,
    /// The title of a note that is being created.
    New,
}

/// What the program has to do after a key press.
#[derive(Clone, Copy, Debug, PartialEq, Eq, Structural)]
pub enum Action {
    /// Nothing but to draw again.
    Idle,
    /// Write the notes to the file.
    Save,
}

/// What the application is, mathematically.
pub struct AppView {
    /// The user asked to leave.
    pub exit: bool,
    pub screen: CurrentScreen,
    /// The mode of the screens `Edit` and `New`.
    pub input_mode: InputMode,
    /// The screen that `Help` lies over and gives way to.
    pub help_return: CurrentScreen,
    /// The title typed so far on the screen `New`.
    pub draft: Seq<char>,
    pub notes: Seq<NoteView>,
    /// The index of the selected note.
    pub selected: Option<usize>,
    /// Why the last save failed, until the next key press.
    pub status: Option<StoreError>,
    /// The file of the notes.
    pub path: Seq<char>,
}

impl AppView {
    /// What holds of the application at every step: a note is selected
    /// unless there is none, the draft is no longer than a title may be,
    /// the screen `Edit` has a note to show, and every note is valid.
    pub open spec fn valid(self) -> bool {
        &&& fits(self.selected, self.notes.len())
        &&& self.draft.len() <= MAX_TITLE_LEN
        &&& self.screen == CurrentScreen::Edit ==> self.notes.len() > 0
        &&& self.screen == CurrentScreen::Help ==> {
            ||| self.help_return == CurrentScreen::List
            ||| self.help_return == CurrentScreen::Edit && self.notes.len() > 0
        }
        &&& forall|i: int| 0 <= i < self.notes.len() ==> (#[trigger] self.notes[i]).valid()
    }

    /// The application as it starts: the stored notes in their order, the
    /// first of them selected, the list shown.
    pub open spec fn initial(records: Seq<RecordView>, path: Seq<char>) -> AppView {
        AppView {
            exit: false,
            screen: CurrentScreen::List,
            input_mode: InputMode::Normal,
            help_return: CurrentScreen::List,
            draft: Seq::<char>::empty(),
            notes: records.map_values(|record: RecordView| NoteView::of_record(record)),
            selected: clamped(None, records.len()),
            status: None,
            path,
        }
    }

    /// The notes as they are stored.
    pub open spec fn records(self) -> Seq<RecordView> {
        self.notes.map_values(|note: NoteView| note.record())
    }

    /// The index of the selected note, where it is one of the notes.
    pub open spec fn current(self) -> Option<int> {
        match self.selected {
            Some(i) => if i < self.notes.len() {
                Some(i as int)
            } else {
                None
            },
            None => None,
        }
    }

    /// The state with another body for the note at `index`.
    pub open spec fn with_body(self, index: int, body: BufferView) -> AppView {
        AppView { notes: self.notes.update(index, self.notes[index].with_body(body)), ..self }
    }

    /// The state after the cursor of the selected note made one step. With
    /// no such note, nothing changes.
    pub open spec fn cursor_moved(self, direction: Direction) -> AppView {
        match self.current() {
            Some(i) => self.with_body(i, self.notes[i].body.moved(direction)),
            None => self,
        }
    }

    /// The state after `c` was typed into the selected note.
    pub open spec fn char_typed(self, c: char) -> AppView {
        match self.current() {
            Some(i) => self.with_body(i, self.notes[i].body.with_char(c)),
            None => self,
        }
    }

    /// The state after the line of the selected note was broken at the
    /// cursor.
    pub open spec fn line_broken(self) -> AppView {
        match self.current() {
            Some(i) => self.with_body(i, self.notes[i].body.with_newline()),
            None => self,
        }
    }

    /// The state after a backspace in the selected note.
    pub open spec fn char_erased(self) -> AppView {
        match self.current() {
            Some(i) => self.with_body(i, self.notes[i].body.without_previous()),
            None => self,
        }
    }

    /// The state after the draft became a note: the note stands at the end
    /// of the list with an empty body and the date `now`, the draft is
    /// empty again, and the list is shown. The selection stays, and where
    /// the list was empty the new note is selected.
    pub open spec fn committed(self, now: Seq<char>) -> AppView {
        AppView {
            notes: self.notes.push(NoteView::fresh(self.draft, now)),
            selected: clamped(self.selected, self.notes.len() + 1),
            draft: Seq::<char>::empty(),
            screen: CurrentScreen::List,
            input_mode: InputMode::Normal,
            ..self
        }
    }

    /// A key press on the screen `List`.
    pub open spec fn list_step(self, event: KeyPress) -> AppView {
        match event.key {
            Key::Char(c) => if c == 'a' {
                AppView {
                    screen: CurrentScreen::New,
                    input_mode: InputMode::Normal,
                    draft: Seq::<char>::empty(),
                    ..self
                }
            } else if c == 'q' {
                AppView { exit: true, ..self }
            } else if c == 'j' {
                AppView { selected: next_selected(self.selected, self.notes.len()), ..self }
            } else if c == 'k' {
                AppView { selected: previous_selected(self.selected, self.notes.len()), ..self }
            } else if c == '?' {
                AppView {
                    screen: CurrentScreen::Help,
                    help_return: CurrentScreen::List,
                    ..self
                }
            } else {
                self
            },
            Key::Tab => if self.notes.len() > 0 {
                AppView { screen: CurrentScreen::Edit, input_mode: InputMode::Normal, ..self }
            } else {
                self
            },
            _ => self,
        }
    }

    /// A key press on the screen `Edit` in the mode `Normal`.
    pub open spec fn edit_step(self, event: KeyPress) -> AppView {
        match event.key {
            Key::Char(c) => if c == 'q' {
                AppView { exit: true, ..self }
            } else if c == 'j' {
                self.cursor_moved(Direction::Down)
            } else if c == 'k' {
                self.cursor_moved(Direction::Up)
            } else if c == 'h' {
                self.cursor_moved(Direction::Left)
            } else if c == 'l' {
                self.cursor_moved(Direction::Right)
            } else if c == 'i' {
                AppView { input_mode: InputMode::Insert, ..self }
            } else if c == '?' {
                AppView {
                    screen: CurrentScreen::Help,
                    help_return: CurrentScreen::Edit,
                    ..self
                }
            } else {
                self
            },
            Key::Tab => AppView { screen: CurrentScreen::List, ..self },
            _ => self,
        }
    }

    /// A key press on the screen `Edit` in the mode `Insert`.
    pub open spec fn insert_step(self, event: KeyPress) -> AppView {
        match event.key {
            Key::Esc => AppView { input_mode: InputMode::Normal, ..self },
            Key::Enter => self.line_broken(),
            Key::Backspace => self.char_erased(),
            _ => match event.typed() {
                Some(c) => self.char_typed(c),
                None => self,
            },
        }
    }

    /// A key press on the screen `Help`: `?` gives way to the screen that
    /// lay under it, which is entered in the mode `Normal`.
    pub open spec fn help_step(self, event: KeyPress) -> AppView {
        if event.key == Key::Char('?') {
            AppView { screen: self.help_return, input_mode: InputMode::Normal, ..self }
        } else {
            self
        }
    }

    /// A key press on the screen `New` in the mode `Normal`.
    pub open spec fn new_normal_step(self, event: KeyPress) -> AppView {
        match event.key {
            Key::Esc => AppView {
                screen: CurrentScreen::List,
                draft: Seq::<char>::empty(),
                ..self
            },
            Key::Char(c) => if c == 'q' {
                AppView { exit: true, ..self }
            } else if c == 'i' {
                AppView { input_mode: InputMode::Insert, ..self }
            } else {
                self
            },
            _ => self,
        }
    }

    /// Whether the key press makes a note of the draft: `Enter` does, on a
    /// draft that is long enough for a title.
    pub open spec fn commits(self, event: KeyPress) -> bool {
        event.key == Key::Enter && is_title(self.draft)
    }

    /// A key press on the screen `New` in the mode `Insert`.
    pub open spec fn new_insert_step(self, event: KeyPress, now: Seq<char>) -> AppView {
        match event.key {
            Key::Esc => AppView { input_mode: InputMode::Normal, ..self },
            Key::Backspace => AppView { draft: erased(self.draft), ..self },
            Key::Enter => if is_title(self.draft) {
                self.committed(now)
            } else {
                self
            },
            _ => match event.typed() {
                Some(c) => AppView { draft: typed(self.draft, c), ..self },
                None => self,
            },
        }
    }

    /// The state after a key press: a report of a failed save is taken
    /// down, and the screen and its mode decide what the key does. `now` is
    /// the date that a note made by this key press gets.
    pub open spec fn step(self, event: KeyPress, now: Seq<char>) -> AppView {
        let state = AppView { status: None, ..self };
        match state.screen {
            CurrentScreen::List => state.list_step(event),
            CurrentScreen::Edit => match state.input_mode {
                InputMode::Normal => state.edit_step(event),
                InputMode::Insert => state.insert_step(event),
            },
            CurrentScreen::Help => state.help_step(event),
            CurrentScreen::New => match state.input_mode {
                InputMode::Normal => state.new_normal_step(event),
                InputMode::Insert => state.new_insert_step(event, now),
            },
        }
    }

    /// What the program has to do after the key press: save, where the
    /// key press made a note; nothing else asks for anything.
    pub open spec fn action(self, event: KeyPress) -> Action {
        if self.screen == CurrentScreen::New && self.input_mode == InputMode::Insert
            && self.commits(event) {
            Action::Save
        } else {
            Action::Idle
        }
    }
}

/// The application.
pub struct App {
    exit: bool,
    notes: Vec<Note>,
    navigation: Navigation,
    input: Draft,
    input_mode: InputMode,
    screen: CurrentScreen,
    help_return: CurrentScreen,
    status: Option<StoreError>,
    repo: NotesRepository,
}

impl View for App {
    type V = AppView;

    closed spec fn view(&self) -> AppView {
        AppView {
            exit: self.exit,
            screen: self.screen,
            input_mode: self.input_mode,
            help_return: self.help_return,
            draft: self.input@,
            notes: self.notes@.map_values(|note: Note| note@),
            selected: self.navigation@,
            status: self.status,
            path: self.repo.path@,
        }
    }
}

impl App {
    /// The parts of the application are as this library builds them.
    pub closed spec fn parts_wf(&self) -> bool {
        &&& self.input.wf()
        &&& forall|i: int| 0 <= i < self.notes@.len() ==> (#[trigger] self.notes@[i]).wf()
    }

    /// What every application of this library satisfies.
    pub open spec fn wf(&self) -> bool {
        &&& self.parts_wf()
        &&& self@.valid()
    }

    /// The application over the stored notes `file_json`, which it will
    /// have saved through `repo`.
    pub fn new(file_json: Vec<JsonNote>, repo: NotesRepository) -> (app: App)
        ensures
            app.wf(),
            app@ == AppView::initial(file_json@.map_values(|record: JsonNote| record@), repo.path@),
    {
        let ghost records = file_json@.map_values(|record: JsonNote| record@);
        let mut notes: Vec<Note> = Vec::new();
        let mut i: usize = 0;
        while i < file_json.len()
            invariant
                i <= file_json.len(),
                notes@.len() == i,
                records == file_json@.map_values(|record: JsonNote| record@),
                forall|k: int| 0 <= k < i ==> (#[trigger] notes@[k]).wf(),
                forall|k: int| 0 <= k < i ==> (#[trigger] notes@[k])@ == NoteView::of_record(records[k]),
            decreases file_json.len() - i,
        {
            notes.push(Note::from_record(&file_json[i]));
            i = i + 1;
        }
        let mut navigation = Navigation::new();
        navigation.clamp(notes.len());
        let app = App {
            exit: false,
            notes,
            navigation,
            input: Draft::new(),
            input_mode: InputMode::Normal,
            screen: CurrentScreen::List,
            help_return: CurrentScreen::List,
            status: None,
            repo,
        };
        proof {
            assert(app@.notes =~= AppView::initial(records, repo.path@).notes);
        }
        app
    }

    /// Handles one key press: takes down the report of a failed save, and
    /// lets the screen and its mode decide what the key does. `now` is the
    /// date that a note made by this key press gets. The result says what
    /// is left for the caller to do.
    pub fn handle_key_events(&mut self, event: KeyPress, now: &str) -> (action: Action)
        requires
            old(self).wf(),
        ensures
            final(self).wf(),
            final(self)@ == old(self)@.step(event, now@),
            action == old(self)@.action(event),
    {
        self.status = None;
        match self.screen {
            CurrentScreen::List => {
                self.handle_list_key_events(event);
                Action::Idle
            },
            CurrentScreen::Edit => {
                match self.input_mode {
                    InputMode::Normal => self.handle_edit_key_events(event),
                    InputMode::Insert => self.handle_insert_key_events(event),
                }
                Action::Idle
            },
            CurrentScreen::Help => {
                self.handle_help_key_events(event);
                Action::Idle
            },
            CurrentScreen::New => match self.input_mode {
                InputMode::Normal => {
                    self.handle_new_normal_key_events(event);
                    Action::Idle
                },
                InputMode::Insert => self.handle_new_insert_key_events(event, now),
            },
        }
    }

    /// Handles a key press on the screen `List`.
    fn handle_list_key_events(&mut self, event: KeyPress)
        requires
            old(self).wf(),
            old(self)@.screen == CurrentScreen::List,
        ensures
            final(self).wf(),
            final(self)@ == old(self)@.list_step(event),
    {
        match event.key {
            Key::Char(c) => {
                if c == 'a' {
                    self.screen = CurrentScreen::New;
                    self.input_mode = InputMode::Normal;
                    self.input.clear();
                } else if c == 'q' {
                    self.exit = true;
                } else if c == 'j' {
                    self.navigation.select_next(self.notes.len());
                } else if c == 'k' {
                    self.navigation.select_previous(self.notes.len());
                } else if c == '?' {
                    self.help_return = CurrentScreen::List;
                    self.screen = CurrentScreen::Help;
                }
            },
            Key::Tab => {
                if self.notes.len() > 0 {
                    self.screen = CurrentScreen::Edit;
                    self.input_mode = InputMode::Normal;
                }
            },
            _ => {},
        }
    }

    /// Handles a key press on the screen `Edit` in the mode `Normal`.
    fn handle_edit_key_events(&mut self, event: KeyPress)
        requires
            old(self).wf(),
            old(self)@.screen == CurrentScreen::Edit,
        ensures
            final(self).wf(),
            final(self)@ == old(self)@.edit_step(event),
    {
        match event.key {
            Key::Char(c) => {
                if c == 'q' {
                    self.exit = true;
                } else if c == 'j' {
                    self.move_cursor(Direction::Down);
                } else if c == 'k' {
                    self.move_cursor(Direction::Up);
                } else if c == 'h' {
                    self.move_cursor(Direction::Left);
                } else if c == 'l' {
                    self.move_cursor(Direction::Right);
                } else if c == 'i' {
                    self.input_mode = InputMode::Insert;
                } else if c == '?' {
                    self.help_return = CurrentScreen::Edit;
                    self.screen = CurrentScreen::Help;
                }
            },
            Key::Tab => {
                self.screen = CurrentScreen::List;
            },
            _ => {},
        }
    }

    /// Handles a key press on the screen `Edit` in the mode `Insert`.
    fn handle_insert_key_events(&mut self, event: KeyPress)
        requires
            old(self).wf(),
        ensures
            final(self).wf(),
            final(self)@ == old(self)@.insert_step(event),
    {
        match event.key {
            Key::Esc => {
                self.input_mode = InputMode::Normal;
            },
            Key::Enter => {
                self.insert_newline();
            },
            Key::Backspace => {
                self.delete_backward();
            },
            _ => {
                if let Some(c) = event.typed_char() {
                    self.insert_character(c);
                }
            },
        }
    }

    /// Handles a key press on the screen `Help`.
    fn handle_help_key_events(&mut self, event: KeyPress)
        requires
            old(self).wf(),
            old(self)@.screen == CurrentScreen::Help,
        ensures
            final(self).wf(),
            final(self)@ == old(self)@.help_step(event),
    {
        match event.key {
            Key::Char(c) => {
                if c == '?' {
                    self.screen = self.help_return;
                    self.input_mode = InputMode::Normal;
                }
            },
            _ => {},
        }
    }

    /// Handles a key press on the screen `New` in the mode `Normal`.
    fn handle_new_normal_key_events(&mut self, event: KeyPress)
        requires
            old(self).wf(),
            old(self)@.screen == CurrentScreen::New,
        ensures
            final(self).wf(),
            final(self)@ == old(self)@.new_normal_step(event),
    {
        match event.key {
            Key::Esc => {
                self.screen = CurrentScreen::List;
                self.input.clear();
            },
            Key::Char(c) => {
                if c == 'q' {
                    self.exit = true;
                } else if c == 'i' {
                    self.input_mode = InputMode::Insert;
                }
            },
            _ => {},
        }
    }

    /// Handles a key press on the screen `New` in the mode `Insert`. `now`
    /// is the date that a note made by this key press gets.
    fn handle_new_insert_key_events(&mut self, event: KeyPress, now: &str) -> (action: Action)
        requires
            old(self).wf(),
            old(self)@.screen == CurrentScreen::New,
        ensures
            final(self).wf(),
            final(self)@ == old(self)@.new_insert_step(event, now@),
            action == if old(self)@.commits(event) {
                Action::Save
            } else {
                Action::Idle
            },
    {
        match event.key {
            Key::Esc => {
                self.input_mode = InputMode::Normal;
            },
            Key::Backspace => {
                self.input.pop();
            },
            Key::Enter => {
                if self.input.is_title() {
                    self.notes.push(Note::new(self.input.text(), now.to_owned()));
                    self.navigation.clamp(self.notes.len());
                    self.input.clear();
                    self.screen = CurrentScreen::List;
                    self.input_mode = InputMode::Normal;
                    assert(self@.notes =~= old(self)@.committed(now@).notes);
                    return Action::Save;
                }
            },
            _ => {
                if let Some(c) = event.typed_char() {
                    self.input.push(c);
                }
            },
        }
        Action::Idle
    }

    /// The index of the selected note, where it is one of the notes.
    pub fn current_note(&self) -> (index: Option<usize>)
        ensures
            match index {
                Some(i) => self@.current() == Some(i as int),
                None => self@.current() == None::<int>,
            },
    {
        match self.navigation.selected() {
            Some(i) => if i < self.notes.len() {
                Some(i)
            } else {
                None
            },
            None => None,
        }
    }

    /// Moves the cursor of the selected note one step, for the mode
    /// `Normal` of the screen `Edit`. With no such note, nothing changes.
    fn move_cursor(&mut self, direction: Direction)
        requires
            old(self).wf(),
        ensures
            final(self).wf(),
            final(self)@ == old(self)@.cursor_moved(direction),
    {
        if let Some(i) = self.current_note() {
            self.notes[i].move_cursor(direction);
            assert(self@.notes =~= old(self)@.cursor_moved(direction).notes);
        }
    }

    /// Types `c` into the selected note at its cursor, for the mode
    /// `Insert` of the screen `Edit`. With no such note, nothing changes.
    fn insert_character(&mut self, c: char)
        requires
            old(self).wf(),
        ensures
            final(self).wf(),
            final(self)@ == old(self)@.char_typed(c),
    {
        if let Some(i) = self.current_note() {
            self.notes[i].insert_character(c);
            assert(self@.notes =~= old(self)@.char_typed(c).notes);
        }
    }

    /// Breaks the line of the selected note at its cursor. With no such
    /// note, nothing changes.
    fn insert_newline(&mut self)
        requires
            old(self).wf(),
        ensures
            final(self).wf(),
            final(self)@ == old(self)@.line_broken(),
    {
        if let Some(i) = self.current_note() {
            self.notes[i].insert_newline();
            assert(self@.notes =~= old(self)@.line_broken().notes);
        }
    }

    /// Deletes what stands before the cursor of the selected note. With no
    /// such note, nothing changes.
    fn delete_backward(&mut self)
        requires
            old(self).wf(),
        ensures
            final(self).wf(),
            final(self)@ == old(self)@.char_erased(),
    {
        if let Some(i) = self.current_note() {
            self.notes[i].delete_backward();
            assert(self@.notes =~= old(self)@.char_erased().notes);
        }
    }

    /// The notes as they are to be stored, in their order.
    pub fn records(&self) -> (records: Vec<JsonNote>)
        ensures
            records@.map_values(|record: JsonNote| record@) == self@.records(),
    {
        let mut records: Vec<JsonNote> = Vec::new();
        let mut i: usize = 0;
        while i < self.notes.len()
            invariant
                i <= self.notes.len(),
                records@.len() == i,
                forall|k: int| 0 <= k < i ==> (#[trigger] records@[k])@ == self.notes@[k]@.record(),
            decreases self.notes.len() - i,
        {
            records.push(self.notes[i].to_record());
            i = i + 1;
        }
        proof {
            assert(records@.map_values(|record: JsonNote| record@) =~= self@.records());
        }
        records
    }

    /// Takes note of how a save went: a failure is kept as the status, to
    /// be shown until the next key press; a success takes an older failure
    /// down. Nothing else changes.
    pub fn save_finished(&mut self, outcome: Result<(), StoreError>)
        requires
            old(self).wf(),
        ensures
            final(self).wf(),
            final(self)@ == (AppView {
                status: match outcome {
                    Ok(_) => None,
                    Err(error) => Some(error),
                },
                ..old(self)@
            }),
    {
        self.status = match outcome {
            Ok(_) => None,
            Err(error) => Some(error),
        };
    }

    /// Whether the user asked to leave.
    pub fn should_exit(&self) -> (exit: bool)
        ensures
            exit == self@.exit,
    {
        self.exit
    }

    /// The screen that is shown.
    pub fn screen(&self) -> (screen: CurrentScreen)
        ensures
            screen == self@.screen,
    {
        self.screen
    }

    /// The mode of the screens `Edit` and `New`.
    pub fn input_mode(&self) -> (mode: InputMode)
        ensures
            mode == self@.input_mode,
    {
        self.input_mode
    }

    /// The screen that `Help` lies over.
    pub fn help_return(&self) -> (screen: CurrentScreen)
        ensures
            screen == self@.help_return,
    {
        self.help_return
    }

    /// The notes, in the order of the list.
    pub fn notes(&self) -> (notes: &Vec<Note>)
        ensures
            notes@.map_values(|note: Note| note@) == self@.notes,
    {
        &self.notes
    }

    /// The index of the selected note, if one is selected.
    pub fn selected(&self) -> (index: Option<usize>)
        ensures
            index == self@.selected,
    {
        self.navigation.selected()
    }

    /// The title typed so far on the screen `New`.
    pub fn draft(&self) -> (title: String)
        ensures
            title@ == self@.draft,
    {
        self.input.text()
    }

    /// Why the last save failed, if it did and no key was pressed since.
    pub fn status(&self) -> (status: &Option<StoreError>)
        ensures
            *status == self@.status,
    {
        &self.status
    }

    /// The file of the notes.
    pub fn repo(&self) -> (repo: &NotesRepository)
        ensures
            repo.path@ == self@.path,
    {
        &self.repo
    }
}

} // verus!
