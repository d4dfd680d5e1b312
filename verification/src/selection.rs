//! The state of a selectable list: which row is highlighted, and how far the
//! list is scrolled.

use vstd::prelude::*;

verus! {

/// The highlighted row of a list, if any, and the index of the first row shown.
///
/// Its view is the pair of the two: the highlighted index, then the scroll
/// offset.
#[derive(Clone, Copy, Debug)]
pub struct Selection {
    selected: Option<usize>,
    offset: usize,
}

impl View for Selection {
    type V = (Option<usize>, usize);

    closed spec fn view(&self) -> (Option<usize>, usize) {
        (self.selected, self.offset)
    }
}

impl Selection {
    /// The highlighted row of `state`, if there is one, is a row of a list of
    /// `len` rows.
    pub open spec fn in_bounds(state: (Option<usize>, usize), len: nat) -> bool {
        state.0 matches Some(index) ==> index < len
    }

    /// The highlighted row, if there is one, is a row of a list of `len` rows.
    pub open spec fn valid_for(&self, len: nat) -> bool {
        Selection::in_bounds(self@, len)
    }

    /// A state with its highlight brought back into a list of `len` rows: a
    /// highlight beyond the end moves to the last row, and in an empty list
    /// it is dropped and the scroll offset with it.
    pub open spec fn fitted(state: (Option<usize>, usize), len: nat) -> (Option<usize>, usize) {
        match state.0 {
            Some(index) if index >= len => if len == 0 {
                (None, 0)
            } else {
                (Some((len - 1) as usize), state.1)
            },
            _ => state,
        }
    }

    /// The state at the start of a session: nothing highlighted, nothing
    /// scrolled.
    pub fn new() -> (state: Selection)
        ensures
            state@ == (None::<usize>, 0usize),
    {
        Selection { selected: None, offset: 0 }
    }

    /// The unscrolled state that highlights row `index` of a list of `len`
    /// rows, where there is such a row.
    pub fn selecting(index: usize, len: usize) -> (state: Option<Selection>)
        ensures
            state.is_some() <==> index < len,
            state matches Some(s) ==> s@ == (Some(index), 0usize),
    {
        if index < len {
            Some(Selection { selected: Some(index), offset: 0 })
        } else {
            None
        }
    }

    /// The index of the highlighted row, if any.
    pub fn selected(&self) -> (selected: Option<usize>)
        ensures
            selected == self@.0,
    {
        self.selected
    }

    /// The index of the first row shown.
    pub fn offset(&self) -> (offset: usize)
        ensures
            offset == self@.1,
    {
        self.offset
    }

    /// Brings the highlight back into a list of `len` rows.
    pub fn fit(&mut self, len: usize)
        ensures
            final(self)@ == Selection::fitted(old(self)@, len as nat),
            final(self).valid_for(len as nat),
            old(self).valid_for(len as nat) ==> final(self)@ == old(self)@,
    {
        if let Some(index) = self.selected {
            if index >= len {
                if len == 0 {
                    self.selected = None;
                    self.offset = 0;
                } else {
                    self.selected = Some(len - 1);
                }
            }
        }
    }

    /// Records the scroll offset that drawing the list has settled on.
    pub fn scroll_to(&mut self, offset: usize)
        ensures
            final(self)@ == (old(self)@.0, offset),
    {
        self.offset = offset;
    }
}

} // verus!
