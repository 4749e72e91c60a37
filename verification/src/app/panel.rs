//! A list panel: items, whether the panel is showing, and which row is
//! selected. One implementation of "move without falling off the end" for
//! every panel.

use vstd::prelude::*;

verus! {

/// A panel showing a list with one selected row.
#[derive(Debug)]
pub struct ListPanel<T> {
    items: Vec<T>,
    open: bool,
    selected: usize,
}

/// Where a selection lands in a list of `len` rows: clamped to the last row,
/// or 0 when there are none.
pub open spec fn clamp_index(i: int, len: int) -> int {
    if len == 0 {
        0
    } else if i < len {
        i
    } else {
        len - 1
    }
}

impl<T> ListPanel<T> {
    /// The selection stays inside the list.
    #[verifier::type_invariant]
    spec fn wf(self) -> bool {
        if self.items@.len() == 0 {
            self.selected == 0
        } else {
            self.selected < self.items@.len()
        }
    }

    /// The rows.
    pub closed spec fn items_view(&self) -> Seq<T> {
        self.items@
    }

    /// Whether the panel is showing.
    pub closed spec fn open_view(&self) -> bool {
        self.open
    }

    /// The selected row.
    pub closed spec fn selected_view(&self) -> int {
        self.selected as int
    }

    /// A closed, empty panel.
    pub fn new() -> (r: Self)
        ensures
            !r.open_view(),
            r.items_view().len() == 0,
            r.selected_view() == 0,
    {
        ListPanel { items: Vec::new(), open: false, selected: 0 }
    }

    /// Shows the panel over `items`, with the first row selected.
    pub fn open(&mut self, items: Vec<T>)
        ensures
            final(self).open_view(),
            final(self).items_view() == items@,
            final(self).selected_view() == 0,
    {
        *self = ListPanel { items, open: true, selected: 0 };
    }

    /// Hides the panel and drops its rows.
    pub fn close(&mut self)
        ensures
            !final(self).open_view(),
            final(self).items_view().len() == 0,
            final(self).selected_view() == 0,
    {
        *self = ListPanel { items: Vec::new(), open: false, selected: 0 };
    }

    /// Returns true if the panel is showing.
    pub fn is_open(&self) -> (r: bool)
        ensures
            r == self.open_view(),
    {
        self.open
    }

    /// The selected row.
    pub fn selected(&self) -> (r: usize)
        ensures
            r == self.selected_view(),
            r == clamp_index(r as int, self.items_view().len() as int),
    {
        proof {
            use_type_invariant(self);
        }
        self.selected
    }

    /// The number of rows.
    pub fn len(&self) -> (r: usize)
        ensures
            r == self.items_view().len(),
    {
        self.items.len()
    }

    /// The rows.
    pub fn items(&self) -> (r: &Vec<T>)
        ensures
            r@ == self.items_view(),
    {
        &self.items
    }

    /// The selected row's item, if there are rows.
    pub fn selected_item(&self) -> (r: Option<&T>)
        ensures
            self.items_view().len() == 0 ==> r is None,
            self.items_view().len() > 0 ==> r == Some(&self.items_view()[self.selected_view()]),
    {
        proof {
            use_type_invariant(self);
        }
        if self.items.len() == 0 {
            None
        } else {
            Some(&self.items[self.selected])
        }
    }

    /// Selects row `index`, clamped into the list.
    pub fn select(&mut self, index: usize)
        ensures
            final(self).selected_view() == clamp_index(index as int, old(self).items_view().len() as int),
            final(self).items_view() == old(self).items_view(),
            final(self).open_view() == old(self).open_view(),
    {
        let n = self.items.len();
        self.selected = if n == 0 {
            0
        } else if index < n {
            index
        } else {
            n - 1
        };
    }

    /// Replaces the rows, keeping the selection where it was when it still
    /// fits and moving it to the last row when it does not.
    pub fn replace(&mut self, items: Vec<T>)
        ensures
            final(self).items_view() == items@,
            final(self).selected_view() == clamp_index(old(self).selected_view(), items@.len() as int),
            final(self).open_view() == old(self).open_view(),
    {
        let n = items.len();
        let s = if n == 0 {
            0
        } else if self.selected < n {
            self.selected
        } else {
            n - 1
        };
        let open = self.open;
        *self = ListPanel { items, open, selected: s };
    }

    /// Moves the selection up one row, stopping at the first.
    pub fn up(&mut self)
        ensures
            final(self).selected_view() == (if old(self).selected_view() > 0 {
                old(self).selected_view() - 1
            } else {
                0
            }),
            final(self).items_view() == old(self).items_view(),
            final(self).open_view() == old(self).open_view(),
    {
        proof {
            use_type_invariant(&*self);
        }
        if self.selected > 0 {
            self.selected = self.selected - 1;
        }
    }

    /// Moves the selection down one row, stopping at the last.
    pub fn down(&mut self)
        ensures
            final(self).selected_view() == (if old(self).selected_view() + 1 < old(self).items_view().len() {
                old(self).selected_view() + 1
            } else {
                old(self).selected_view()
            }),
            final(self).items_view() == old(self).items_view(),
            final(self).open_view() == old(self).open_view(),
    {
        proof {
            use_type_invariant(&*self);
        }
        if self.items.len() > 0 && self.selected < self.items.len() - 1 {
            self.selected = self.selected + 1;
        }
    }
}

} // verus!
