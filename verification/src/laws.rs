//! What holds of the application whatever is typed.

use crate::draft::is_title;
use crate::draft::MAX_TITLE_LEN;
use crate::draft::MIN_TITLE_LEN;
use crate::keys::Key;
use crate::keys::KeyPress;
use crate::lines::lemma_join_split;
use crate::lines::lemma_split_join;
use crate::lines::lemma_split_nonempty;
use crate::lines::lemma_split_single_lines;
use crate::navigation::fits;
use crate::navigation::next_selected;
use crate::navigation::previous_selected;
use crate::note::NoteView;
use crate::note::RecordView;
use crate::notes_app::AppView;
use crate::notes_app::CurrentScreen;
use crate::notes_app::InputMode;
use crate::text_buffer::BufferView;
use crate::text_buffer::Direction;
use vstd::prelude::*;

verus! {

/// One key press together with the date at which it is handled.
pub struct Stroke {
    pub event: KeyPress,
    pub now: Seq<char>,
}

/// The buffer after the cursor made these steps, one after the other.
pub open spec fn moved_all(buffer: BufferView, moves: Seq<Direction>) -> BufferView
    decreases moves.len(),
{
    if moves.len() == 0 {
        buffer
    } else {
        moved_all(buffer, moves.drop_last()).moved(moves.last())
    }
}

/// The state after these key presses, one after the other.
pub open spec fn run(state: AppView, inputs: Seq<Stroke>) -> AppView
    decreases inputs.len(),
{
    if inputs.len() == 0 {
        state
    } else {
        run(state, inputs.drop_last()).step(inputs.last().event, inputs.last().now)
    }
}

/// A stored note that is loaded and stored again is stored as it was: its
/// title and date are kept, and its body, cut into lines and joined again,
/// is the same text, whatever it holds.
pub proof fn lemma_record_round_trip(record: RecordView)
    ensures
        NoteView::of_record(record).valid(),
        NoteView::of_record(record).record() == record,
{
    lemma_join_split(record.body);
    lemma_split_nonempty(record.body);
    lemma_split_single_lines(record.body);
}

/// The application that starts over stored notes is valid and would store
/// exactly these notes: saving what was loaded writes what was read.
pub proof fn lemma_load_then_save(records: Seq<RecordView>, path: Seq<char>)
    ensures
        AppView::initial(records, path).valid(),
        AppView::initial(records, path).records() == records,
{
    let state = AppView::initial(records, path);
    assert forall|i: int| 0 <= i < records.len() implies (#[trigger] state.notes[i]).valid()
        && state.notes[i].record() == records[i] by {
        lemma_record_round_trip(records[i]);
    }
    assert(state.records() =~= records);
}

/// A valid note that is stored and loaded again has the text it had: the
/// same title, the same lines and the same date. Only the cursor is back at
/// the start.
pub proof fn lemma_note_round_trip(note: NoteView)
    requires
        note.valid(),
    ensures
        NoteView::of_record(note.record()).title == note.title,
        NoteView::of_record(note.record()).body.lines == note.body.lines,
        NoteView::of_record(note.record()).date_created == note.date_created,
{
    lemma_split_join(note.body.lines);
}

/// However the cursor is moved, it stays inside the text: on one of its
/// lines, and on that line between its start and its end. The text itself
/// is not changed.
pub proof fn lemma_moves_stay_in_bounds(buffer: BufferView, moves: Seq<Direction>)
    requires
        buffer.in_bounds(),
    ensures
        moved_all(buffer, moves).in_bounds(),
        moved_all(buffer, moves).lines == buffer.lines,
        0 <= moved_all(buffer, moves).row < buffer.lines.len(),
        0 <= moved_all(buffer, moves).col <= buffer.lines[moved_all(buffer, moves).row].len(),
    decreases moves.len(),
{
    if moves.len() > 0 {
        lemma_moves_stay_in_bounds(buffer, moves.drop_last());
    }
}

/// A key press takes a valid state to a valid state.
pub proof fn lemma_step_valid(state: AppView, event: KeyPress, now: Seq<char>)
    requires
        state.valid(),
    ensures
        state.step(event, now).valid(),
{
    let cleared = AppView { status: None, ..state };
    let next = state.step(event, now);
    match cleared.current() {
        Some(i) => {
            let body = cleared.notes[i].body;
            assert(cleared.notes[i].valid());
            body.lemma_moved_valid(Direction::Up);
            body.lemma_moved_valid(Direction::Down);
            body.lemma_moved_valid(Direction::Left);
            body.lemma_moved_valid(Direction::Right);
            body.lemma_with_newline_valid();
            body.lemma_without_previous_valid();
            match event.typed() {
                Some(c) => {
                    body.lemma_with_char_valid(c);
                },
                None => {},
            }
        },
        None => {},
    }
    assert forall|i: int| 0 <= i < next.notes.len() implies (#[trigger] next.notes[i]).valid() by {
        if i < state.notes.len() {
            assert(state.notes[i].valid());
        }
    }
}

/// Whatever is typed, the state stays valid.
pub proof fn lemma_run_valid(state: AppView, inputs: Seq<Stroke>)
    requires
        state.valid(),
    ensures
        run(state, inputs).valid(),
    decreases inputs.len(),
{
    if inputs.len() > 0 {
        lemma_run_valid(state, inputs.drop_last());
        lemma_step_valid(run(state, inputs.drop_last()), inputs.last().event, inputs.last().now);
    }
}

/// Whatever is typed, the draft of a title never holds more characters than
/// a title may have.
pub proof fn lemma_draft_bounded(state: AppView, inputs: Seq<Stroke>)
    requires
        state.valid(),
    ensures
        run(state, inputs).draft.len() <= MAX_TITLE_LEN,
{
    lemma_run_valid(state, inputs);
}

/// Whatever is typed, a note is selected unless there is none, and the
/// selected index is that of a note.
pub proof fn lemma_selection_fits(state: AppView, inputs: Seq<Stroke>)
    requires
        state.valid(),
    ensures
        fits(run(state, inputs).selected, run(state, inputs).notes.len()),
        run(state, inputs).selected is None <==> run(state, inputs).notes.len() == 0,
{
    lemma_run_valid(state, inputs);
}

/// `Enter` on the screen for a new note makes a note only of a draft that
/// is long enough. With fewer characters than a title must have, the notes
/// and the draft stay as they are and the screen stays. With that many or
/// more, the list grows by exactly one note at its end, which has the draft
/// for its title, an empty body and the date of the key press; the notes
/// before it stay as they are.
pub proof fn lemma_commit_needs_title(state: AppView, event: KeyPress, now: Seq<char>)
    requires
        state.screen == CurrentScreen::New,
        state.input_mode == InputMode::Insert,
        event.key == Key::Enter,
    ensures
        state.draft.len() < MIN_TITLE_LEN ==> {
            &&& state.step(event, now).notes == state.notes
            &&& state.step(event, now).draft == state.draft
            &&& state.step(event, now).screen == CurrentScreen::New
        },
        state.draft.len() >= MIN_TITLE_LEN ==> {
            &&& state.step(event, now).notes.len() == state.notes.len() + 1
            &&& state.step(event, now).notes.last() == NoteView::fresh(state.draft, now)
            &&& state.step(event, now).notes.drop_last() == state.notes
            &&& state.step(event, now).screen == CurrentScreen::List
        },
{
    if is_title(state.draft) {
        assert(state.step(event, now).notes.drop_last() =~= state.notes);
    }
}

/// The number of notes changes on no key press but the one that makes a
/// note of the draft.
pub proof fn lemma_count_changes_on_commit_only(state: AppView, event: KeyPress, now: Seq<char>)
    requires
        !(state.screen == CurrentScreen::New && state.input_mode == InputMode::Insert
            && state.commits(event)),
    ensures
        state.step(event, now).notes.len() == state.notes.len(),
{
}

/// A step forward in a list of one note selects the note that was selected;
/// in an empty list, a step forward or back leaves nothing selected.
pub proof fn lemma_select_next_alone(selected: Option<usize>)
    ensures
        fits(selected, 1) ==> next_selected(selected, 1) == selected,
        fits(selected, 0) ==> next_selected(selected, 0) == None::<usize>,
        fits(selected, 0) ==> previous_selected(selected, 0) == None::<usize>,
{
}

/// A step forward from the last note selects the first; a step back from
/// the first note selects the first.
pub proof fn lemma_wrap_forward_stay_backward(count: nat)
    requires
        0 < count <= usize::MAX,
    ensures
        next_selected(Some((count - 1) as usize), count) == Some(0usize),
        previous_selected(Some(0usize), count) == Some(0usize),
{
}

/// On the list, `j` with a single note leaves that note selected, and `j`
/// or `k` with no notes leaves nothing selected.
pub proof fn lemma_list_keys_alone(state: AppView, now: Seq<char>)
    requires
        state.valid(),
        state.screen == CurrentScreen::List,
    ensures
        state.notes.len() == 1 ==> state.step(
            KeyPress { key: Key::Char('j'), ctrl: false, alt: false },
            now,
        ).selected == state.selected,
        state.notes.len() == 0 ==> state.step(
            KeyPress { key: Key::Char('j'), ctrl: false, alt: false },
            now,
        ).selected is None,
        state.notes.len() == 0 ==> state.step(
            KeyPress { key: Key::Char('k'), ctrl: false, alt: false },
            now,
        ).selected is None,
{
}

/// With no notes, `Tab` on the list changes nothing but to take down the
/// report of a failed save: the list stays.
pub proof fn lemma_tab_needs_a_note(state: AppView, event: KeyPress, now: Seq<char>)
    requires
        state.screen == CurrentScreen::List,
        state.notes.len() == 0,
        event.key == Key::Tab,
    ensures
        state.step(event, now) == (AppView { status: None, ..state }),
{
}

} // verus!
