//! A list of items with a selection cursor that wraps around.

use vstd::prelude::*;

verus! {

/// The selection of a list widget, and the first row it shows.
#[derive(Debug, Clone, Copy, PartialEq, Eq, Structural)]
pub struct ListState {
    pub offset: usize,
    pub selected: Option<usize>,
}

impl Default for ListState {
    fn default() -> (state: ListState)
        ensures
            state == (ListState { offset: 0, selected: None }),
    {
        ListState { offset: 0, selected: None }
    }
}

impl ListState {
    /// The state after `index` was selected. Taking the selection away
    /// also scrolls the list back to its first row.
    pub open spec fn selecting(self, index: Option<usize>) -> ListState {
        ListState {
            selected: index,
            offset: if index.is_none() {
                0
            } else {
                self.offset
            },
        }
    }

    /// Sets the selection. Taking the selection away also scrolls the
    /// list back to its first row.
    pub fn select(&mut self, index: Option<usize>)
        ensures
            *final(self) == old(self).selecting(index),
    {
        self.selected = index;
        if index.is_none() {
            self.offset = 0;
        }
    }

    pub fn selected(&self) -> (index: Option<usize>)
        ensures
            index == self.selected,
    {
        self.selected
    }
}

/// The row after `selected` among `len` rows, going round to the first
/// row behind the last. With no selection yet it is the first row, and
/// with no rows there is none.
pub open spec fn next_index(selected: Option<usize>, len: nat) -> Option<usize> {
    if len == 0 {
        None
    } else {
        match selected {
            Some(i) => if i + 1 >= len {
                Some(0)
            } else {
                Some((i + 1) as usize)
            },
            None => Some(0),
        }
    }
}

/// The row before `selected` among `len` rows, going round to the last
/// row in front of the first. With no selection yet it is the first row,
/// and with no rows there is none.
pub open spec fn previous_index(selected: Option<usize>, len: nat) -> Option<usize> {
    if len == 0 {
        None
    } else {
        match selected {
            Some(i) => if i == 0 {
                Some((len - 1) as usize)
            } else {
                Some((i - 1) as usize)
            },
            None => Some(0),
        }
    }
}

/// Items in order, with the state of the widget that shows them.
#[derive(Debug)]
pub struct StatefulList<T> {
    pub state: ListState,
    pub items: Vec<T>,
}

impl<T> Default for StatefulList<T> {
    fn default() -> (list: StatefulList<T>)
        ensures
            list.items@ == Seq::<T>::empty(),
            list.state == (ListState { offset: 0, selected: None }),
    {
        StatefulList { state: ListState::default(), items: Vec::new() }
    }
}

impl<T> StatefulList<T> {
    /// The selection, if it names an item.
    pub open spec fn selection_in_range(&self) -> bool {
        match self.state.selected {
            Some(i) => i < self.items@.len(),
            None => true,
        }
    }

    /// A list of `items` with nothing selected.
    pub fn with_items(items: Vec<T>) -> (list: StatefulList<T>)
        ensures
            list.items == items,
            list.state == (ListState { offset: 0, selected: None }),
    {
        StatefulList { state: ListState::default(), items }
    }

    /// Moves the selection one item on, from the last item to the first.
    pub fn next(&mut self)
        ensures
            final(self).items == old(self).items,
            final(self).state == old(self).state.selecting(
                next_index(old(self).state.selected, old(self).items@.len()),
            ),
            final(self).selection_in_range(),
    {
        let len = self.items.len();
        let index = if len == 0 {
            None
        } else {
            match self.state.selected() {
                Some(i) => if i >= len - 1 {
                    Some(0)
                } else {
                    Some(i + 1)
                },
                None => Some(0),
            }
        };
        self.state.select(index);
    }

    /// Moves the selection one item back, from the first item to the
    /// last.
    pub fn previous(&mut self)
        ensures
            final(self).items == old(self).items,
            final(self).state == old(self).state.selecting(
                previous_index(old(self).state.selected, old(self).items@.len()),
            ),
            old(self).selection_in_range() ==> final(self).selection_in_range(),
    {
        let len = self.items.len();
        let index = if len == 0 {
            None
        } else {
            match self.state.selected() {
                Some(i) => if i == 0 {
                    Some(len - 1)
                } else {
                    Some(i - 1)
                },
                None => Some(0),
            }
        };
        self.state.select(index);
    }

    /// Takes the selection away.
    pub fn unselect(&mut self)
        ensures
            final(self).items == old(self).items,
            final(self).state == (ListState { offset: 0, selected: None }),
    {
        self.state.select(None);
    }

    /// The selected item, if the selection names one.
    pub fn selected_item(&self) -> (item: Option<&T>)
        ensures
            item == match self.state.selected {
                Some(i) => if i < self.items@.len() {
                    Some(&self.items@[i as int])
                } else {
                    None
                },
                None => None,
            },
    {
        match self.state.selected() {
            Some(i) => if i < self.items.len() {
                Some(&self.items[i])
            } else {
                None
            },
            None => None,
        }
    }
}

/// Going one item on and then one back, or one back and then one on,
/// returns the selection to where it was: for every list that has items
/// (as many as a vector can hold) and every selection that names one of
/// them.
pub proof fn lemma_next_previous_round_trip(selected: usize, len: nat)
    requires
        0 < len <= usize::MAX,
        selected < len,
    ensures
        previous_index(next_index(Some(selected), len), len) == Some(selected),
        next_index(previous_index(Some(selected), len), len) == Some(selected),
{
}

} // verus!
