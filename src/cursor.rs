use vstd::prelude::*;

use crate::app::Action;
use crate::interactive_list::{index_after_down, index_after_up, selection_fits};
use crate::keybindings::KeyBinding;
use crate::paged::{Paged, PagedView, PAGE_SIZE};

verus! {

/// A selection and the first visible row of a scrolled list.
pub struct CursorModel {
    pub index: nat,
    pub offset: nat,
}

impl CursorModel {
    /// The selection fits a list of `len` items and is not above the view.
    pub open spec fn fits(self, len: nat) -> bool {
        selection_fits(self.index, len) && self.offset <= self.index
    }

    /// The selection is inside a view of `height` rows.
    pub open spec fn in_view(self, height: nat) -> bool {
        self.offset <= self.index < self.offset + height
    }

    /// One item down in a list of `len` items, with a view of `height`
    /// rows: the view scrolls one row when the selection would leave it at
    /// the bottom.
    pub open spec fn down(self, len: nat, height: nat) -> CursorModel {
        if len == 0 {
            CursorModel { index: 0, offset: self.offset }
        } else {
            let index = index_after_down(self.index, len);
            CursorModel {
                index,
                offset: if index >= self.offset + height && index > self.offset {
                    self.offset + 1
                } else {
                    self.offset
                },
            }
        }
    }

    /// One item up: the view scrolls one row when the selection would leave
    /// it at the top.
    pub open spec fn up(self) -> CursorModel {
        if self.index == 0 {
            self
        } else {
            let index = index_after_up(self.index);
            CursorModel {
                index,
                offset: if index < self.offset {
                    (self.offset - 1) as nat
                } else {
                    self.offset
                },
            }
        }
    }

    /// The selection is within a quarter page of the last of `len` items.
    pub open spec fn near_end(self, len: nat) -> bool {
        len - self.index <= PAGE_SIZE / 4
    }
}

/// What a key press does to a cursor over a paginated collection, to the
/// collection, and what it asks of the dispatcher. A move down near the end
/// of the known items starts a fetch of the next page unless none exists or
/// one is in flight.
pub open spec fn key_step<T>(c: CursorModel, p: PagedView<T>, key: KeyBinding, height: nat) -> (
    CursorModel,
    PagedView<T>,
    Option<Action>,
) {
    match key {
        KeyBinding::Up => (c.up(), p, Some(Action::Redraw)),
        KeyBinding::Down => {
            let c2 = c.down(p.items.len(), height);
            if c2.near_end(p.items.len()) && p.has_more() && !p.loading {
                (c2, p.mark_loading(), Some(Action::Request(p.fetch_request())))
            } else {
                (c2, p, Some(Action::Redraw))
            }
        },
        _ => (c, p, None),
    }
}

/// Whether an answer starts a fetch.
pub open spec fn fetches(a: Option<Action>) -> nat {
    if a matches Some(Action::Request(_)) {
        1
    } else {
        0
    }
}

/// The cursor and the collection after each of `keys` in turn, and how many
/// fetches were started on the way.
pub open spec fn run_keys<T>(c: CursorModel, p: PagedView<T>, keys: Seq<KeyBinding>, height: nat) -> (
    CursorModel,
    PagedView<T>,
    nat,
)
    decreases keys.len(),
{
    if keys.len() == 0 {
        (c, p, 0)
    } else {
        let before = run_keys(c, p, keys.drop_last(), height);
        let step = key_step(before.0, before.1, keys.last(), height);
        (step.0, step.1, before.2 + fetches(step.2))
    }
}

/// Key presses never change the items, the token or the counter.
pub proof fn lemma_keys_keep_items<T>(c: CursorModel, p: PagedView<T>, keys: Seq<KeyBinding>, height: nat)
    ensures
        run_keys(c, p, keys, height).1.items == p.items,
        run_keys(c, p, keys, height).1.next == p.next,
        run_keys(c, p, keys, height).1.index == p.index,
        run_keys(c, p, keys, height).1.page_id == p.page_id,
        p.loading ==> run_keys(c, p, keys, height).1.loading,
    decreases keys.len(),
{
    if keys.len() > 0 {
        lemma_keys_keep_items(c, p, keys.drop_last(), height);
    }
}

/// Whatever keys are pressed, the selection stays on one of the `n` known
/// items, or on the first place when there are none, and never above the
/// view.
pub proof fn lemma_cursor_selection_bounds<T>(c: CursorModel, p: PagedView<T>, keys: Seq<KeyBinding>, height: nat)
    requires
        c.fits(p.items.len()),
    ensures
        run_keys(c, p, keys, height).0.fits(p.items.len()),
    decreases keys.len(),
{
    if keys.len() > 0 {
        lemma_cursor_selection_bounds(c, p, keys.drop_last(), height);
        lemma_keys_keep_items(c, p, keys.drop_last(), height);
    }
}

/// With a view of at least one row, the selection stays inside the view
/// after every key press.
pub proof fn lemma_scroll_containment<T>(c: CursorModel, p: PagedView<T>, keys: Seq<KeyBinding>, height: nat)
    requires
        height > 0,
        c.fits(p.items.len()),
        c.in_view(height),
    ensures
        run_keys(c, p, keys, height).0.in_view(height),
    decreases keys.len(),
{
    if keys.len() > 0 {
        lemma_scroll_containment(c, p, keys.drop_last(), height);
        lemma_cursor_selection_bounds(c, p, keys.drop_last(), height);
        lemma_keys_keep_items(c, p, keys.drop_last(), height);
    }
}

/// A cursor that fits a collection still fits it, unchanged, once a page
/// has been merged: growth never moves the selection or the view.
pub proof fn lemma_merge_keeps_cursor<T>(c: CursorModel, p: PagedView<T>, page: PagedView<T>)
    requires
        c.fits(p.items.len()),
    ensures
        c.fits(p.merge(page).items.len()),
{
}

/// Whatever keys are pressed while no page arrives and no request fails,
/// at most one fetch is started, none while one is already in flight, and
/// the one started stays in flight.
pub proof fn lemma_at_most_one_fetch<T>(c: CursorModel, p: PagedView<T>, keys: Seq<KeyBinding>, height: nat)
    ensures
        run_keys(c, p, keys, height).2 <= 1,
        run_keys(c, p, keys, height).2 == 1 ==> run_keys(c, p, keys, height).1.loading,
        p.loading ==> run_keys(c, p, keys, height).2 == 0,
    decreases keys.len(),
{
    if keys.len() > 0 {
        lemma_at_most_one_fetch(c, p, keys.drop_last(), height);
        lemma_keys_keep_items(c, p, keys.drop_last(), height);
    }
}

/// Once a merge has applied a page without a continuation token, no key
/// press starts a fetch and no position of the selection asks for one.
pub proof fn lemma_exhaustion_stops_fetching<T>(
    c: CursorModel,
    p: PagedView<T>,
    page: PagedView<T>,
    keys: Seq<KeyBinding>,
    height: nat,
)
    requires
        page.next is None,
        p.index + page.index <= u32::MAX,
    ensures
        run_keys(c, p.merge(page), keys, height).2 == 0,
        forall|index: nat| !(#[trigger] run_keys(c, p.merge(page), keys, height).1.needs_prefetch(index)),
    decreases keys.len(),
{
    lemma_keys_keep_items(c, p.merge(page), keys, height);
    if keys.len() > 0 {
        lemma_exhaustion_stops_fetching(c, p, page, keys.drop_last(), height);
        lemma_keys_keep_items(c, p.merge(page), keys.drop_last(), height);
    }
}

/// A selection and a scroll offset over a list that the cursor does not own.
#[derive(Debug)]
pub struct Cursor {
    index: usize,
    scroll_offset: usize,
}

impl View for Cursor {
    type V = CursorModel;

    closed spec fn view(&self) -> CursorModel {
        CursorModel { index: self.index as nat, offset: self.scroll_offset as nat }
    }
}

impl Cursor {
    pub fn new() -> (r: Cursor)
        ensures
            r@ == (CursorModel { index: 0, offset: 0 }),
    {
        Cursor { index: 0, scroll_offset: 0 }
    }

    /// The item at `index`, if there is one.
    pub fn get<'a, T>(&self, index: usize, items: &'a [T]) -> (r: Option<&'a T>)
        ensures
            index < items@.len() ==> r == Some(&items@[index as int]),
            index >= items@.len() ==> r is None,
    {
        if index < items.len() {
            Some(&items[index])
        } else {
            None
        }
    }

    /// The selected item, if there is one.
    pub fn selected_item<'a, T>(&self, items: &'a [T]) -> (r: Option<&'a T>)
        ensures
            self@.index < items@.len() ==> r == Some(&items@[self@.index as int]),
            self@.index >= items@.len() ==> r is None,
    {
        self.get(self.index, items)
    }

    fn select_next(&mut self, len: usize, height: u16)
        requires
            old(self)@.fits(len as nat),
        ensures
            final(self)@ == old(self)@.down(len as nat, height as nat),
            final(self)@.fits(len as nat),
    {
        if len != 0 {
            if self.index + 1 < len {
                self.index = self.index + 1;
            } else {
                self.index = len - 1;
            }
            if self.index - self.scroll_offset >= height as usize && self.index > self.scroll_offset {
                self.scroll_offset = self.scroll_offset + 1;
            }
        } else {
            self.index = 0;
        }
    }

    fn select_prev(&mut self)
        requires
            old(self)@.offset <= old(self)@.index,
        ensures
            final(self)@ == old(self)@.up(),
    {
        if self.index != 0 {
            self.index = self.index - 1;
            if self.index < self.scroll_offset {
                self.scroll_offset = self.scroll_offset - 1;
            }
        }
    }

    pub fn is_highlighted(&self, i: usize) -> (r: bool)
        ensures
            r == (i == self@.index),
    {
        self.index == i
    }

    pub fn index(&self) -> (r: usize)
        ensures
            r == self@.index,
    {
        self.index
    }

    pub fn scroll_offset(&self) -> (r: usize)
        ensures
            r == self@.offset,
    {
        self.scroll_offset
    }

    /// Moves the selection on `Up` and `Down` and asks for a redraw; a move
    /// down near the end of the known items starts a fetch of the next page
    /// (see `key_step`). Other keys are not for the cursor.
    pub fn receive_input<T>(&mut self, input: KeyBinding, paged: &mut Paged<T>, height: u16) -> (r: Option<Action>)
        requires
            old(self)@.fits(old(paged)@.items.len()),
            old(paged).wf(),
        ensures
            final(paged).wf(),
            final(self)@.fits(final(paged)@.items.len()),
            (final(self)@, final(paged)@, r) == key_step(old(self)@, old(paged)@, input, height as nat),
    {
        match input {
            KeyBinding::Up => {
                self.select_prev();
                Some(Action::Redraw)
            },
            KeyBinding::Down => {
                self.select_next(paged.len(), height);
                if self.needs_next_page(paged.len()) {
                    match paged.load_next() {
                        Some(request) => Some(Action::Request(request)),
                        None => Some(Action::Redraw),
                    }
                } else {
                    Some(Action::Redraw)
                }
            },
            _ => None,
        }
    }

    /// Whether the selection is within a quarter page of the last of `len`
    /// items.
    pub fn needs_next_page(&self, len: usize) -> (r: bool)
        ensures
            r == self@.near_end(len as nat),
    {
        self.index >= len || len - self.index <= (PAGE_SIZE / 4) as usize
    }

    /// The rows to draw in a view of `height` rows over a list of `len`
    /// items: the index of each visible item, from the first visible row
    /// down, and whether it is the selected one.
    pub fn visible_rows(&self, len: usize, height: usize) -> (r: Vec<(usize, bool)>)
        ensures
            r@.len() == visible_count(self@.offset, len as nat, height as nat),
            forall|k: int|
                0 <= k < r@.len() ==> #[trigger] r@[k] == (
                    (self@.offset + k) as usize,
                    self@.offset + k == self@.index,
                ),
    {
        let mut rows: Vec<(usize, bool)> = Vec::new();
        if self.scroll_offset >= len {
            return rows;
        }
        let count: usize = if len - self.scroll_offset < height {
            len - self.scroll_offset
        } else {
            height
        };
        let mut k: usize = 0;
        while k < count
            invariant
                count == visible_count(self@.offset, len as nat, height as nat),
                self.scroll_offset + count <= len,
                k <= count,
                rows@.len() == k,
                forall|j: int|
                    0 <= j < k ==> #[trigger] rows@[j] == (
                        (self@.offset + j) as usize,
                        self@.offset + j == self@.index,
                    ),
            decreases count - k,
        {
            let i: usize = self.scroll_offset + k;
            rows.push((i, i == self.index));
            k = k + 1;
        }
        rows
    }
}

/// How many rows of a view of `height` rows show items of a list of `len`
/// items when the first visible row shows item `offset`.
pub open spec fn visible_count(offset: nat, len: nat, height: nat) -> nat {
    if offset >= len {
        0
    } else if len - offset < height {
        (len - offset) as nat
    } else {
        height
    }
}

} // verus!
