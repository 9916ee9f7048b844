use vstd::prelude::*;

use crate::app::NetworkRequest;

verus! {

/// How many items one request asks for.
pub const PAGE_SIZE: u32 = 8;

/// Where page `index` of a collection starts: `PAGE_SIZE` items per page.
/// `None` when that position does not fit in a `u32`.
pub fn page_offset(index: u32) -> (r: Option<u32>)
    ensures
        PAGE_SIZE * index <= u32::MAX ==> r == Some((PAGE_SIZE * index) as u32),
        PAGE_SIZE * index > u32::MAX ==> r is None,
{
    if index <= u32::MAX / PAGE_SIZE {
        Some(PAGE_SIZE * index)
    } else {
        None
    }
}

/// Which paginated collection a page belongs to.
#[derive(Debug)]
pub enum PageId {
    Playlists,
    Playlist(String),
}

impl Clone for PageId {
    fn clone(&self) -> (r: PageId)
        ensures
            r == *self,
    {
        match self {
            PageId::Playlists => PageId::Playlists,
            PageId::Playlist(id) => PageId::Playlist(id.clone()),
        }
    }
}

impl PageId {
    /// Both ids name the same collection.
    pub open spec fn names_same(self, other: PageId) -> bool {
        match (self, other) {
            (PageId::Playlists, PageId::Playlists) => true,
            (PageId::Playlist(a), PageId::Playlist(b)) => a@ == b@,
            _ => false,
        }
    }

    pub fn same_as(&self, other: &PageId) -> (r: bool)
        ensures
            r == self.names_same(*other),
    {
        match (self, other) {
            (PageId::Playlists, PageId::Playlists) => true,
            (PageId::Playlist(a), PageId::Playlist(b)) => *a == *b,
            _ => false,
        }
    }
}

/// Where the next page of a collection starts: the page-sequence counter
/// and the continuation token that the remote side handed out.
#[derive(Debug)]
pub struct NextPage {
    pub index: u32,
    pub uri: String,
}

impl Clone for NextPage {
    fn clone(&self) -> (r: NextPage)
        ensures
            r == *self,
    {
        NextPage { index: self.index, uri: self.uri.clone() }
    }
}

impl NextPage {
    fn add_offset(self, offset: u32) -> (r: NextPage)
        requires
            self.index + offset <= u32::MAX,
        ensures
            r.index == self.index + offset,
            r.uri == self.uri,
    {
        NextPage { index: self.index + offset, uri: self.uri }
    }
}

/// What a `Paged` holds, as mathematical values.
pub struct PagedView<T> {
    pub items: Seq<T>,
    pub next: Option<NextPage>,
    pub index: nat,
    pub page_id: PageId,
    pub loading: bool,
}

impl<T> PagedView<T> {
    /// A continuation token is present: the collection may hold more.
    pub open spec fn has_more(self) -> bool {
        self.next is Some
    }

    /// The token carries the page-sequence counter.
    pub open spec fn wf(self) -> bool {
        &&& self.index <= u32::MAX
        &&& self.next matches Some(np) ==> np.index == self.index
    }

    /// The selection at `index` is within a quarter page of the last known
    /// item, more items exist, and no request for them is in flight.
    pub open spec fn needs_prefetch(self, index: nat) -> bool {
        &&& self.items.len() - index <= PAGE_SIZE / 4
        &&& self.has_more()
        &&& !self.loading
    }

    /// The request that asks for the next page.
    pub open spec fn fetch_request(self) -> NetworkRequest {
        NetworkRequest::LoadNextPage(self.page_id, self.next->Some_0)
    }

    /// The state after a fetched page arrives. Its items are appended, its
    /// token replaces the old one, and its counter is added to the stored
    /// one. A page whose counter would leave the counter's range is
    /// malformed and leaves items, token and counter as they were. Either
    /// way the request is no longer in flight.
    pub open spec fn merge(self, page: PagedView<T>) -> PagedView<T> {
        if self.index + page.index <= u32::MAX {
            PagedView {
                items: self.items + page.items,
                next: match page.next {
                    Some(np) => Some(NextPage { index: (np.index + self.index) as u32, uri: np.uri }),
                    None => None,
                },
                index: self.index + page.index,
                page_id: self.page_id,
                loading: false,
            }
        } else {
            PagedView { loading: false, ..self }
        }
    }

    /// The state after a request for the next page is sent.
    pub open spec fn mark_loading(self) -> PagedView<T> {
        PagedView { loading: true, ..self }
    }
}

/// The collection after each of `pages` is merged in turn.
pub open spec fn merge_all<T>(p: PagedView<T>, pages: Seq<PagedView<T>>) -> PagedView<T>
    decreases pages.len(),
{
    if pages.len() == 0 {
        p
    } else {
        merge_all(p, pages.drop_last()).merge(pages.last())
    }
}

/// Over any sequence of merges the page-sequence counter never goes down:
/// after more merges it is at least what it was after fewer.
pub proof fn lemma_page_index_monotonic<T>(p: PagedView<T>, pages: Seq<PagedView<T>>, i: nat, j: nat)
    requires
        i <= j <= pages.len(),
    ensures
        merge_all(p, pages.take(i as int)).index <= merge_all(p, pages.take(j as int)).index,
    decreases j,
{
    if i < j {
        lemma_page_index_monotonic(p, pages, i, (j - 1) as nat);
        assert(pages.take(j as int).drop_last() =~= pages.take(j - 1));
    } else {
        assert(pages.take(i as int) =~= pages.take(j as int));
    }
}

/// The items fetched so far of one paginated collection, where the next
/// page starts, and whether a request for it is in flight.
#[derive(Debug)]
pub struct Paged<T> {
    items: Vec<T>,
    next_page: Option<NextPage>,
    index: u32,
    page_id: PageId,
    loading: bool,
}

impl<T> View for Paged<T> {
    type V = PagedView<T>;

    closed spec fn view(&self) -> PagedView<T> {
        PagedView {
            items: self.items@,
            next: self.next_page,
            index: self.index as nat,
            page_id: self.page_id,
            loading: self.loading,
        }
    }
}

impl<T> Paged<T> {
    pub open spec fn wf(&self) -> bool {
        self@.wf()
    }

    /// An empty collection with no token: nothing is known of it yet.
    pub fn new(page_id: PageId) -> (r: Paged<T>)
        ensures
            r@.wf(),
            r@ == (PagedView {
                items: Seq::<T>::empty(),
                next: None,
                index: 0,
                page_id,
                loading: false,
            }),
    {
        Paged { items: Vec::new(), next_page: None, index: 0, page_id, loading: false }
    }

    /// A page as it arrives: its items, the token of the page after it, and
    /// its page-sequence counter.
    pub fn from_parts(items: Vec<T>, next: Option<String>, index: u32, page_id: PageId) -> (r: Paged<T>)
        ensures
            r@.wf(),
            r@.items == items@,
            r@.index == index,
            r@.page_id == page_id,
            !r@.loading,
            match next {
                Some(uri) => r@.next == Some(NextPage { index, uri }),
                None => r@.next is None,
            },
    {
        let next_page = match next {
            Some(uri) => Some(NextPage { index, uri }),
            None => None,
        };
        Paged { items, next_page, index, page_id, loading: false }
    }

    /// A page as one request returns it: the page after it is one further
    /// on than the page that was asked for.
    pub fn from(items: Vec<T>, next: Option<String>, page_id: PageId) -> (r: Paged<T>)
        ensures
            r@.wf(),
            r@.items == items@,
            r@.index == 1,
            r@.page_id == page_id,
            !r@.loading,
            match next {
                Some(uri) => r@.next == Some(NextPage { index: 1, uri }),
                None => r@.next is None,
            },
    {
        Paged::from_parts(items, next, 1, page_id)
    }

    /// Merges a fetched page; see `PagedView::merge`.
    pub fn add_page(&mut self, page: Paged<T>)
        requires
            old(self).wf(),
            page.wf(),
        ensures
            final(self).wf(),
            final(self)@ == old(self)@.merge(page@),
    {
        if page.index <= u32::MAX - self.index {
            let old_index: u32 = self.index;
            let mut new_items = page.items;
            self.items.append(&mut new_items);
            self.next_page = match page.next_page {
                Some(np) => Some(np.add_offset(old_index)),
                None => None,
            };
            self.index = old_index + page.index;
        }
        self.loading = false;
    }

    /// A request for the next page failed: nothing is merged, and the next
    /// qualifying scroll may ask again.
    pub fn fetch_failed(&mut self)
        requires
            old(self).wf(),
        ensures
            final(self).wf(),
            final(self)@ == (PagedView { loading: false, ..old(self)@ }),
    {
        self.loading = false;
    }

    pub fn items(&self) -> (r: &Vec<T>)
        ensures
            r@ == self@.items,
    {
        &self.items
    }

    pub fn next_page(&self) -> (r: Option<&NextPage>)
        ensures
            match self@.next {
                Some(np) => r == Some(&np),
                None => r is None,
            },
    {
        self.next_page.as_ref()
    }

    pub fn has_more(&self) -> (r: bool)
        ensures
            r == self@.has_more(),
    {
        self.next_page.is_some()
    }

    pub fn is_loading(&self) -> (r: bool)
        ensures
            r == self@.loading,
    {
        self.loading
    }

    pub fn page_index(&self) -> (r: u32)
        ensures
            r == self@.index,
    {
        self.index
    }

    pub fn page_id(&self) -> (r: &PageId)
        ensures
            *r == self@.page_id,
    {
        &self.page_id
    }

    pub fn len(&self) -> (r: usize)
        ensures
            r == self@.items.len(),
    {
        self.items.len()
    }

    /// Whether a selection at `index` should ask for the next page now.
    pub fn needs_prefetch(&self, index: usize) -> (r: bool)
        ensures
            r == self@.needs_prefetch(index as nat),
    {
        (index >= self.items.len() || self.items.len() - index <= (PAGE_SIZE / 4) as usize)
            && self.next_page.is_some() && !self.loading
    }

    /// Starts a fetch of the next page when more items exist and none is in
    /// flight: marks the fetch as in flight and returns the request to send.
    pub fn load_next(&mut self) -> (r: Option<NetworkRequest>)
        requires
            old(self).wf(),
        ensures
            final(self).wf(),
            old(self)@.has_more() && !old(self)@.loading ==> {
                &&& r == Some(old(self)@.fetch_request())
                &&& final(self)@ == old(self)@.mark_loading()
            },
            !(old(self)@.has_more() && !old(self)@.loading) ==> {
                &&& r is None
                &&& final(self)@ == old(self)@
            },
    {
        if self.loading {
            return None;
        }
        match &self.next_page {
            Some(np) => {
                let request = NetworkRequest::LoadNextPage(self.page_id.clone(), np.clone());
                self.loading = true;
                Some(request)
            },
            None => None,
        }
    }
}

} // verus!
