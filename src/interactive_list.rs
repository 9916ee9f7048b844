use vstd::prelude::*;
use vstd::std_specs::iter::IteratorSpec;

use crate::app::Action;
use crate::keybindings::KeyBinding;

verus! {

/// A selection in a list of `len` items is on one of the items, or on the
/// first place when the list is empty.
pub open spec fn selection_fits(index: nat, len: nat) -> bool {
    if len == 0 {
        index == 0
    } else {
        index < len
    }
}

/// The selection after moving one item down: it stops on the last item, and
/// goes back to the first place in an empty list.
pub open spec fn index_after_down(index: nat, len: nat) -> nat {
    if len == 0 {
        0
    } else if index + 1 < len {
        index + 1
    } else {
        (len - 1) as nat
    }
}

/// The selection after moving one item up: it stops on the first item.
pub open spec fn index_after_up(index: nat) -> nat {
    if index == 0 {
        0
    } else {
        (index - 1) as nat
    }
}

/// The selection after a key press in a list of `len` items.
pub open spec fn index_after_key(index: nat, len: nat, key: KeyBinding) -> nat {
    match key {
        KeyBinding::Up => index_after_up(index),
        KeyBinding::Down => index_after_down(index, len),
        _ => index,
    }
}

/// The selection after each of `keys` in turn.
pub open spec fn index_after_keys(index: nat, len: nat, keys: Seq<KeyBinding>) -> nat
    decreases keys.len(),
{
    if keys.len() == 0 {
        index
    } else {
        index_after_key(index_after_keys(index, len, keys.drop_last()), len, keys.last())
    }
}

/// Whatever keys are pressed, the selection of a list of `len` items stays
/// on one of its items, or on the first place when it is empty.
pub proof fn lemma_selection_bounds(index: nat, len: nat, keys: Seq<KeyBinding>)
    requires
        selection_fits(index, len),
    ensures
        selection_fits(index_after_keys(index, len, keys), len),
    decreases keys.len(),
{
    if keys.len() > 0 {
        lemma_selection_bounds(index, len, keys.drop_last());
    }
}

/// An ordered, growable list of items with one selected place.
#[derive(Debug)]
pub struct InteractiveList<T> {
    index: usize,
    items: Vec<T>,
}

impl<T> InteractiveList<T> {
    /// The items, in order.
    pub closed spec fn items_view(&self) -> Seq<T> {
        self.items@
    }

    /// The selected place.
    pub closed spec fn selected_index(&self) -> nat {
        self.index as nat
    }

    pub open spec fn wf(&self) -> bool {
        selection_fits(self.selected_index(), self.items_view().len())
    }

    pub fn new() -> (r: InteractiveList<T>)
        ensures
            r.wf(),
            r.items_view() == Seq::<T>::empty(),
            r.selected_index() == 0,
    {
        InteractiveList { index: 0, items: Vec::new() }
    }

    pub fn from(items: Vec<T>) -> (r: InteractiveList<T>)
        ensures
            r.wf(),
            r.items_view() == items@,
            r.selected_index() == 0,
    {
        InteractiveList { index: 0, items }
    }

    /// The items, in order, by reference.
    pub fn iter(&self) -> (r: std::slice::Iter<'_, T>)
        ensures
            r.remaining() == self.items_view().as_ref(),
    {
        self.items.iter()
    }

    /// The items, in order, by value.
    pub fn into_iter(self) -> (r: std::vec::IntoIter<T>)
        ensures
            r.remaining() == self.items_view(),
    {
        self.items.into_iter()
    }

    /// Appends `items`; the selection stays where it was.
    pub fn extend(&mut self, items: Vec<T>)
        requires
            old(self).wf(),
        ensures
            final(self).wf(),
            final(self).items_view() == old(self).items_view() + items@,
            final(self).selected_index() == old(self).selected_index(),
    {
        let mut items = items;
        self.items.append(&mut items);
    }

    /// The selected item, or `None` when the list is empty.
    pub fn selected_item(&self) -> (r: Option<&T>)
        requires
            self.wf(),
        ensures
            self.items_view().len() == 0 ==> r is None,
            self.items_view().len() > 0 ==> r == Some(&self.items_view()[self.selected_index() as int]),
    {
        if self.index < self.items.len() {
            Some(&self.items[self.index])
        } else {
            None
        }
    }

    pub fn select_next(&mut self)
        requires
            old(self).wf(),
        ensures
            final(self).wf(),
            final(self).items_view() == old(self).items_view(),
            final(self).selected_index() == index_after_down(
                old(self).selected_index(),
                old(self).items_view().len(),
            ),
    {
        if self.items.len() != 0 {
            if self.index + 1 < self.items.len() {
                self.index = self.index + 1;
            } else {
                self.index = self.items.len() - 1;
            }
        } else {
            self.index = 0;
        }
    }

    pub fn select_prev(&mut self)
        requires
            old(self).wf(),
        ensures
            final(self).wf(),
            final(self).items_view() == old(self).items_view(),
            final(self).selected_index() == index_after_up(old(self).selected_index()),
    {
        if self.index != 0 {
            self.index = self.index - 1;
        }
    }

    /// `Up` and `Down` move the selection and ask for a redraw; other keys
    /// are not for the list.
    pub fn receive_input(&mut self, input: KeyBinding) -> (r: Option<Action>)
        requires
            old(self).wf(),
        ensures
            final(self).wf(),
            final(self).items_view() == old(self).items_view(),
            final(self).selected_index() == index_after_key(
                old(self).selected_index(),
                old(self).items_view().len(),
                input,
            ),
            input is Up || input is Down ==> r == Some(Action::Redraw),
            !(input is Up || input is Down) ==> r is None,
    {
        match input {
            KeyBinding::Up => {
                self.select_prev();
                Some(Action::Redraw)
            },
            KeyBinding::Down => {
                self.select_next();
                Some(Action::Redraw)
            },
            _ => None,
        }
    }

    pub fn is_highlighted(&self, i: usize) -> (r: bool)
        ensures
            r == (i == self.selected_index()),
    {
        self.index == i
    }

    pub fn index(&self) -> (r: usize)
        ensures
            r == self.selected_index(),
    {
        self.index
    }

    pub fn len(&self) -> (r: usize)
        ensures
            r == self.items_view().len(),
    {
        self.items.len()
    }
}

} // verus!
