//! Which note of the list is selected.
//!
//! The selection is kept in a `ratatui::widgets::ListState`, the state that
//! the list widget is drawn with. The widget itself brings an index that
//! lies behind the end of the list back into it when it draws; here the
//! index is kept inside the list at every step, so that it can be used
//! between two drawings as well.

use ratatui::widgets::ListState;
use vstd::prelude::*;

verus! {

/// `ratatui::widgets::ListState`, of which Verus sees nothing inside.
#[verifier::external_type_specification]
#[verifier::external_body]
pub struct ExListState(ListState);

/// The index that the list state holds as selected, if any.
pub uninterp spec fn list_selected(state: ListState) -> Option<usize>;

/// `ListState::default`: nothing is selected.
pub assume_specification[ <ListState as Default>::default ]() -> (state: ListState)
    ensures
        list_selected(state) == None::<usize>,
;

/// `ListState::selected`: the selected index, if any.
pub assume_specification[ ListState::selected ](state: &ListState) -> (index: Option<usize>)
    ensures
        index == list_selected(*state),
;

/// `ListState::select`: the given index, or none, is selected from now on.
pub assume_specification[ ListState::select ](state: &mut ListState, index: Option<usize>)
    ensures
        list_selected(*final(state)) == index,
;

/// `ListState::select_first`: index 0 is selected.
pub assume_specification[ ListState::select_first ](state: &mut ListState)
    ensures
        list_selected(*final(state)) == Some(0usize),
;

/// `ListState::select_next`: the index after the selected one is selected,
/// without overflow; index 0 where none was.
pub assume_specification[ ListState::select_next ](state: &mut ListState)
    ensures
        list_selected(*final(state)) == Some(
            match list_selected(*old(state)) {
                Some(i) => if i < usize::MAX {
                    (i + 1) as usize
                } else {
                    i
                },
                None => 0usize,
            },
        ),
;

/// `ListState::select_previous`: the index before the selected one is
/// selected, index 0 staying; the greatest index there is where none was.
pub assume_specification[ ListState::select_previous ](state: &mut ListState)
    ensures
        list_selected(*final(state)) == Some(
            match list_selected(*old(state)) {
                Some(i) => if i > 0 {
                    (i - 1) as usize
                } else {
                    i
                },
                None => usize::MAX,
            },
        ),
;

/// The selection fits a list of `count` items: nothing is selected in an
/// empty list, and one of its items in any other.
pub open spec fn fits(selected: Option<usize>, count: nat) -> bool {
    match selected {
        Some(i) => i < count,
        None => count == 0,
    }
}

/// The selection brought into a list of `count` items: nothing in an empty
/// list; else the first item where nothing was selected, the last where the
/// index lay behind it, and the index itself in all other cases.
pub open spec fn clamped(selected: Option<usize>, count: nat) -> Option<usize> {
    if count == 0 {
        None
    } else {
        match selected {
            Some(i) => if i < count {
                Some(i)
            } else {
                Some((count - 1) as usize)
            },
            None => Some(0usize),
        }
    }
}

/// The selection after a step forward in a list of `count` items: the next
/// item, and from the last item round to the first. The first item where
/// nothing was selected; in an empty list no change.
pub open spec fn next_selected(selected: Option<usize>, count: nat) -> Option<usize> {
    if count == 0 {
        selected
    } else {
        match selected {
            Some(i) => if i + 1 < count {
                Some((i + 1) as usize)
            } else {
                Some(0usize)
            },
            None => Some(0usize),
        }
    }
}

/// The selection after a step back in a list of `count` items: the item
/// before, the first item staying where it is. The last item where nothing
/// was selected or the index lay behind the list; in an empty list no
/// change.
pub open spec fn previous_selected(selected: Option<usize>, count: nat) -> Option<usize> {
    if count == 0 {
        selected
    } else {
        match selected {
            Some(i) => if i == 0 {
                Some(0usize)
            } else if i - 1 < count {
                Some((i - 1) as usize)
            } else {
                Some((count - 1) as usize)
            },
            None => Some((count - 1) as usize),
        }
    }
}

/// The cursor of the list of notes.
pub struct Navigation {
    state: ListState,
}

impl View for Navigation {
    type V = Option<usize>;

    closed spec fn view(&self) -> Option<usize> {
        list_selected(self.state)
    }
}

impl Navigation {
    /// A cursor with nothing selected.
    pub fn new() -> (navigation: Navigation)
        ensures
            navigation@ == None::<usize>,
    {
        Navigation { state: ListState::default() }
    }

    /// The selected index, if any.
    pub fn selected(&self) -> (index: Option<usize>)
        ensures
            index == self@,
    {
        self.state.selected()
    }

    /// Brings the selection into a list of `count` items.
    pub fn clamp(&mut self, count: usize)
        ensures
            final(self)@ == clamped(old(self)@, count as nat),
            fits(final(self)@, count as nat),
    {
        if count == 0 {
            self.state.select(None);
        } else {
            match self.state.selected() {
                None => self.state.select_first(),
                Some(i) => if i >= count {
                    self.state.select(Some(count - 1));
                },
            }
        }
    }

    /// Steps forward in a list of `count` items, from the last to the first.
    pub fn select_next(&mut self, count: usize)
        ensures
            final(self)@ == next_selected(old(self)@, count as nat),
            count > 0 ==> fits(final(self)@, count as nat),
    {
        if count == 0 {
            return ;
        }
        let at_end = match self.state.selected() {
            Some(i) => i >= count - 1,
            None => false,
        };
        if at_end {
            self.state.select_first();
        } else {
            self.state.select_next();
        }
    }

    /// Steps back in a list of `count` items, staying at the first.
    pub fn select_previous(&mut self, count: usize)
        ensures
            final(self)@ == previous_selected(old(self)@, count as nat),
            count > 0 ==> fits(final(self)@, count as nat),
    {
        if count == 0 {
            return ;
        }
        self.state.select_previous();
        self.clamp(count);
    }
}

} // verus!
