//! A list of rows with a highlighted-row cursor that wraps around both ends.

use vstd::prelude::*;
use tui::widgets::ListState;
use crate::cursor::{
    lemma_step_backward, lemma_step_forward, step_backward, step_forward, valid_cursor,
};

verus! {

/// `tui::widgets::ListState`: the state of a list widget, which remembers the
/// highlighted row between two renderings. Its fields are private to `tui`, so
/// a value is opaque here and is only reached through the items below.
#[verifier::external_type_specification]
#[verifier::external_body]
pub struct ExListState(ListState);

/// The row that a `ListState` holds as highlighted, `None` when it holds none.
pub uninterp spec fn highlighted(state: ListState) -> Option<usize>;

/// `ListState::selected` reads the highlighted row and changes nothing.
pub assume_specification[ ListState::selected ](state: &ListState) -> (index: Option<usize>)
    ensures
        index == highlighted(*state),
;

/// `ListState::select` stores `index` as the highlighted row. No bound is
/// checked: the state does not know the list it belongs to.
pub assume_specification[ ListState::select ](state: &mut ListState, index: Option<usize>)
    ensures
        highlighted(*final(state)) == index,
;

/// `ListState::default` is a state with no highlighted row.
pub assume_specification[ <ListState as Default>::default ]() -> (state: ListState)
    ensures
        highlighted(state) is None,
;

/// `ListState::clone`, which `tui` derives: the copy holds the same
/// highlighted row.
pub assume_specification[ <ListState as Clone>::clone ](state: &ListState) -> (copy: ListState)
    ensures
        highlighted(copy) == highlighted(*state),
;

/// What a [`StatefulList`] stands for: its rows in order, and its cursor.
pub struct ListView<T> {
    pub items: Seq<T>,
    pub selected: Option<nat>,
}

/// An ordered list of rows together with the state of the widget that shows
/// them. The rows never change after construction; the cursor is absent or
/// indexes a row.
pub struct StatefulList<T> {
    state: ListState,
    items: Vec<T>,
}

impl<T> View for StatefulList<T> {
    type V = ListView<T>;

    closed spec fn view(&self) -> ListView<T> {
        ListView {
            items: self.items@,
            selected: match highlighted(self.state) {
                Some(i) => Some(i as nat),
                None => None,
            },
        }
    }
}

impl<T> StatefulList<T> {
    #[verifier::type_invariant]
    spec fn cursor_in_range(self) -> bool {
        match highlighted(self.state) {
            Some(i) => i < self.items.len(),
            None => true,
        }
    }

    /// Stores `index` as the cursor. The new widget state is made from a
    /// copy of the old one and stored in one assignment, so the cursor and
    /// the rows agree wherever the list can be observed.
    fn place_cursor(&mut self, index: Option<usize>)
        requires
            match index {
                Some(i) => i < old(self).items.len(),
                None => true,
            },
        ensures
            final(self).items == old(self).items,
            highlighted(final(self).state) == index,
    {
        let mut state = self.state.clone();
        state.select(index);
        self.state = state;
    }

    /// A list without rows and without a highlighted row.
    pub fn new() -> (list: Self)
        ensures
            list@.items == Seq::<T>::empty(),
            list@.selected is None,
    {
        StatefulList { state: ListState::default(), items: Vec::new() }
    }

    /// A list of the given rows, in their order, with no row highlighted yet.
    pub fn with_items(items: Vec<T>) -> (list: Self)
        ensures
            list@.items == items@,
            list@.selected is None,
    {
        StatefulList { state: ListState::default(), items }
    }

    /// The rows, in order.
    pub fn items(&self) -> (items: &Vec<T>)
        ensures
            items@ == self@.items,
    {
        &self.items
    }

    /// The index of the highlighted row, if there is one. It always indexes a
    /// row of the list.
    pub fn selected(&self) -> (index: Option<usize>)
        ensures
            valid_cursor(self@.selected, self@.items.len()),
            match index {
                Some(i) => self@.selected == Some(i as nat),
                None => self@.selected is None,
            },
    {
        proof {
            use_type_invariant(self);
        }
        self.state.selected()
    }

    /// The highlighted row, if there is one.
    pub fn selected_item(&self) -> (item: Option<&T>)
        ensures
            match item {
                Some(row) => self@.selected is Some && self@.selected->0 < self@.items.len()
                    && *row == self@.items[self@.selected->0 as int],
                None => self@.selected is None,
            },
    {
        proof {
            use_type_invariant(self);
        }
        match self.state.selected() {
            Some(i) => Some(&self.items[i]),
            None => None,
        }
    }

    /// Moves the cursor one row towards the end, from the last row on to the
    /// first. A list without rows keeps no cursor; a list without a cursor
    /// gets it on the first row.
    pub fn next(&mut self)
        ensures
            final(self)@.items == old(self)@.items,
            final(self)@.selected == step_forward(old(self)@.selected, old(self)@.items.len()),
    {
        proof {
            use_type_invariant(&*self);
            lemma_step_forward(self@.selected, self@.items.len());
        }
        let len = self.items.len();
        if len == 0 {
            return ;
        }
        let i: usize = match self.state.selected() {
            Some(i) => if i >= len - 1 {
                0
            } else {
                i + 1
            },
            None => 0,
        };
        self.place_cursor(Some(i));
    }

    /// Moves the cursor one row towards the start, from the first row on to
    /// the last. A list without rows keeps no cursor; a list without a cursor
    /// gets it on the first row.
    pub fn previous(&mut self)
        ensures
            final(self)@.items == old(self)@.items,
            final(self)@.selected == step_backward(old(self)@.selected, old(self)@.items.len()),
    {
        proof {
            use_type_invariant(&*self);
            lemma_step_backward(self@.selected, self@.items.len());
        }
        let len = self.items.len();
        if len == 0 {
            return ;
        }
        let i: usize = match self.state.selected() {
            Some(i) => if i == 0 {
                len - 1
            } else {
                i - 1
            },
            None => 0,
        };
        self.place_cursor(Some(i));
    }

    /// Removes the cursor.
    pub fn unselect(&mut self)
        ensures
            final(self)@.items == old(self)@.items,
            final(self)@.selected is None,
    {
        self.place_cursor(None);
    }
}

} // verus!
