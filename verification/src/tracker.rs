use vstd::prelude::*;

verus! {

/// Selection cursor over a list of `rows` rows.
///
/// The tracker knows nothing about row contents: it only keeps the current
/// row count and which row, if any, is selected. Every operation is total;
/// whenever `rows == 0` the selection is `None`, and otherwise a selection,
/// once made, always stays inside `[0, rows)`.
pub struct Tracker {
    pub rows: usize,
    pub selected: Option<usize>,
}

impl Tracker {
    /// Well-formedness: a selected index is always a valid row index.
    pub open spec fn wf(self) -> bool {
        match self.selected {
            Some(i) => i < self.rows,
            None => true,
        }
    }

    /// The selection after one `next`: advance by one, wrapping from the
    /// last row to the first; an empty list stays unselected; with no
    /// current selection the first row is selected.
    pub open spec fn spec_next(self) -> Tracker {
        if self.rows == 0 {
            self
        } else {
            let target: usize = match self.selected {
                Some(i) => if i + 1 >= self.rows { 0usize } else { (i + 1) as usize },
                None => 0usize,
            };
            Tracker { selected: Some(target), ..self }
        }
    }

    /// The selection after one `previous`: move back by one, wrapping from
    /// the first row to the last; an empty list stays unselected; with no
    /// current selection the first row is selected.
    pub open spec fn spec_previous(self) -> Tracker {
        if self.rows == 0 {
            self
        } else {
            let target: usize = match self.selected {
                Some(i) => if i == 0 { (self.rows - 1) as usize } else { (i - 1) as usize },
                None => 0usize,
            };
            Tracker { selected: Some(target), ..self }
        }
    }

    /// The selection after `jump_forward(k)`: advance by `k`, clamped to the
    /// last row (page jumps do not wrap).
    pub open spec fn spec_jump_forward(self, k: usize) -> Tracker {
        if self.rows == 0 {
            self
        } else {
            let target: usize = match self.selected {
                Some(i) => if i + k >= self.rows { (self.rows - 1) as usize } else { (i + k) as usize },
                None => 0usize,
            };
            Tracker { selected: Some(target), ..self }
        }
    }

    /// The selection after `jump_backward(k)`: move back by `k`, clamped to
    /// the first row (page jumps do not wrap).
    pub open spec fn spec_jump_backward(self, k: usize) -> Tracker {
        if self.rows == 0 {
            self
        } else {
            let target: usize = match self.selected {
                Some(i) => if i >= k { (i - k) as usize } else { 0usize },
                None => 0usize,
            };
            Tracker { selected: Some(target), ..self }
        }
    }

    /// The selection after the row count changes to `rows`: an out-of-range
    /// selection is clamped to the last valid row, or cleared if `rows == 0`.
    pub open spec fn spec_set_items(self, rows: usize) -> Tracker {
        let sel: Option<usize> = match self.selected {
            Some(i) => if rows == 0 {
                None
            } else if i < rows {
                Some(i)
            } else {
                Some((rows - 1) as usize)
            },
            None => None,
        };
        Tracker { rows, selected: sel }
    }

    /// The selection after `select(s)`: a requested index is clamped to the
    /// valid range, and any request on an empty list leaves no selection.
    pub open spec fn spec_select(self, s: Option<usize>) -> Tracker {
        let sel: Option<usize> = match s {
            Some(i) => if self.rows == 0 {
                None
            } else if i < self.rows {
                Some(i)
            } else {
                Some((self.rows - 1) as usize)
            },
            None => None,
        };
        Tracker { selected: sel, ..self }
    }

    /// A fresh tracker over an empty list, with nothing selected.
    pub fn new() -> (t: Tracker)
        ensures
            t.wf(),
            t.rows == 0,
            t.selected is None,
    {
        Tracker { rows: 0, selected: None }
    }

    /// The currently selected row, if any.
    pub fn selected(&self) -> (s: Option<usize>)
        ensures
            s == self.selected,
    {
        self.selected
    }

    /// Replace the row count, clamping or clearing the selection.
    pub fn set_items(&mut self, rows: usize)
        requires
            old(self).wf(),
        ensures
            final(self).wf(),
            *final(self) == old(self).spec_set_items(rows),
            final(self).rows == rows,
    {
        self.rows = rows;
        match self.selected {
            Some(i) => {
                if rows == 0 {
                    self.selected = None;
                } else if i >= rows {
                    self.selected = Some(rows - 1);
                }
            }
            None => {}
        }
    }

    /// Move the selection one row down, wrapping from the last row to the
    /// first. No-op on an empty list.
    pub fn next(&mut self)
        requires
            old(self).wf(),
        ensures
            final(self).wf(),
            *final(self) == old(self).spec_next(),
            final(self).rows == 0 ==> final(self).selected is None,
            final(self).rows > 0 ==> final(self).selected is Some
                && final(self).selected->0 < final(self).rows,
            old(self).selected == Some((old(self).rows - 1) as usize) && old(self).rows > 0
                ==> final(self).selected == Some(0usize),
    {
        if self.rows == 0 {
            return;
        }
        let target: usize = match self.selected {
            Some(i) => if i + 1 >= self.rows { 0 } else { i + 1 },
            None => 0,
        };
        self.selected = Some(target);
    }

    /// Move the selection one row up, wrapping from the first row to the
    /// last. No-op on an empty list.
    pub fn previous(&mut self)
        requires
            old(self).wf(),
        ensures
            final(self).wf(),
            *final(self) == old(self).spec_previous(),
            final(self).rows == 0 ==> final(self).selected is None,
            final(self).rows > 0 ==> final(self).selected is Some
                && final(self).selected->0 < final(self).rows,
            old(self).selected == Some(0usize) && old(self).rows > 0
                ==> final(self).selected == Some((old(self).rows - 1) as usize),
    {
        if self.rows == 0 {
            return;
        }
        let target: usize = match self.selected {
            Some(i) => if i == 0 { self.rows - 1 } else { i - 1 },
            None => 0,
        };
        self.selected = Some(target);
    }

    /// Move the selection `k` rows down, clamped at the last row.
    pub fn jump_forward(&mut self, k: usize)
        requires
            old(self).wf(),
        ensures
            final(self).wf(),
            *final(self) == old(self).spec_jump_forward(k),
    {
        if self.rows == 0 {
            return;
        }
        let target: usize = match self.selected {
            Some(i) => {
                if k >= self.rows - i {
                    self.rows - 1
                } else {
                    i + k
                }
            }
            None => 0,
        };
        self.selected = Some(target);
    }

    /// Move the selection `k` rows up, clamped at the first row.
    pub fn jump_backward(&mut self, k: usize)
        requires
            old(self).wf(),
        ensures
            final(self).wf(),
            *final(self) == old(self).spec_jump_backward(k),
    {
        if self.rows == 0 {
            return;
        }
        let target: usize = match self.selected {
            Some(i) => if i >= k { i - k } else { 0 },
            None => 0,
        };
        self.selected = Some(target);
    }

    /// Set the selection directly, clamping a too-large index to the last
    /// row and clearing the selection on an empty list.
    pub fn select(&mut self, s: Option<usize>)
        requires
            old(self).wf(),
        ensures
            final(self).wf(),
            *final(self) == old(self).spec_select(s),
    {
        self.selected = match s {
            Some(i) => {
                if self.rows == 0 {
                    None
                } else if i < self.rows {
                    Some(i)
                } else {
                    Some(self.rows - 1)
                }
            }
            None => None,
        };
    }
}

} // verus!
