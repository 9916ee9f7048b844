use vstd::prelude::*;

use crate::app::{Action, NetworkRequest};
use crate::cursor::{key_step, Cursor, CursorModel};
use crate::keybindings::KeyBinding;
use crate::paged::{PageId, Paged, PagedView};
use crate::playlist::{texts, Playlist, PlaylistSummary, PlaylistTrack, PlaylistView};
use crate::popup::Popup;

verus! {

/// A rectangle of the terminal.
#[derive(Debug)]
pub struct BoundingBox {
    pub x: u16,
    pub y: u16,
    pub width: u16,
    pub height: u16,
}

/// The item at `index`, if there is one.
pub open spec fn item_at<T>(items: Seq<T>, index: nat) -> Option<T> {
    if index < items.len() {
        Some(items[index as int])
    } else {
        None
    }
}

/// The rows left for the list in a terminal of `rows` rows, below the title
/// line.
pub open spec fn list_height(rows: nat) -> nat {
    if rows > 0 {
        (rows - 1) as nat
    } else {
        0
    }
}

fn list_rows(rows: u16) -> (r: u16)
    ensures
        r == list_height(rows as nat),
{
    if rows > 0 {
        rows - 1
    } else {
        0
    }
}

/// A popup of `lines` for a terminal of `cols` columns and `rows` rows.
pub open spec fn popup_of(p: Popup, lines: Seq<Seq<char>>, cols: u16, rows: u16) -> bool {
    &&& texts(p.lines@) == lines
    &&& p.x == cols / 4
    &&& p.y == rows / 4
    &&& p.width == 2 * (cols / 4)
}

/// The list of all playlists, fetched page by page.
#[derive(Debug)]
pub struct PlaylistsScreen {
    pub cursor: Cursor,
    pub playlists: Paged<PlaylistSummary>,
}

impl PlaylistsScreen {
    pub open spec fn wf(&self) -> bool {
        &&& self.playlists.wf()
        &&& self.cursor@.fits(self.playlists@.items.len())
        &&& self.playlists@.page_id == PageId::Playlists
    }

    /// The selected summary, if there is one.
    pub open spec fn selected(&self) -> Option<PlaylistSummary> {
        item_at(self.playlists@.items, self.cursor@.index)
    }

    /// A list at its start: nothing fetched yet, the first place selected.
    pub open spec fn is_fresh(self) -> bool {
        &&& self.wf()
        &&& self.cursor@ == CursorModel { index: 0, offset: 0 }
        &&& self.playlists@.items.len() == 0
        &&& self.playlists@.next is None
        &&& self.playlists@.index == 0
        &&& !self.playlists@.loading
    }

    pub fn new() -> (r: PlaylistsScreen)
        ensures
            r.is_fresh(),
    {
        PlaylistsScreen { cursor: Cursor::new(), playlists: Paged::new(PageId::Playlists) }
    }

    /// How the list answers a key press in a terminal of `cols` columns
    /// and `rows` rows: `after` is the list afterwards, `r` what it asks of
    /// the dispatcher.
    pub open spec fn answers(self, input: KeyBinding, cols: u16, rows: u16, after: PlaylistsScreen, r: Option<Action>) -> bool {
        match input {
            KeyBinding::Enter => {
                &&& after == self
                &&& match self.selected() {
                    Some(s) => r matches Some(Action::Request(NetworkRequest::LoadPlaylist(id))) && id@ == s@.id,
                    None => r is None,
                }
            },
            KeyBinding::InfoPopup => {
                &&& after == self
                &&& match self.selected() {
                    Some(s) => r matches Some(Action::Popup(p)) && popup_of(p, s@.info_lines(), cols, rows),
                    None => r is None,
                }
            },
            _ => (after.cursor@, after.playlists@, r) == key_step(
                self.cursor@,
                self.playlists@,
                input,
                list_height(rows as nat),
            ),
        }
    }

    /// `Enter` asks for the selected playlist, `InfoPopup` shows its summary;
    /// with nothing selected they do nothing. Other keys go to the cursor.
    pub fn receive_input(&mut self, input: KeyBinding, cols: u16, rows: u16) -> (r: Option<Action>)
        requires
            old(self).wf(),
        ensures
            final(self).wf(),
            old(self).answers(input, cols, rows, *final(self), r),
    {
        match input {
            KeyBinding::Enter => {
                match self.cursor.selected_item(self.playlists.items().as_slice()) {
                    Some(s) => Some(Action::Request(NetworkRequest::LoadPlaylist(String::from_str(s.id())))),
                    None => None,
                }
            },
            KeyBinding::InfoPopup => {
                match self.cursor.selected_item(self.playlists.items().as_slice()) {
                    Some(s) => Some(Action::Popup(s.info_popup(cols, rows))),
                    None => None,
                }
            },
            _ => self.cursor.receive_input(input, &mut self.playlists, list_rows(rows)),
        }
    }

    /// Playlist summaries arrived: the list is drawn again.
    pub fn notify(&mut self, action: Action) -> (r: Option<Action>)
        ensures
            *final(self) == *old(self),
            r == notify_playlists(action),
    {
        match action {
            Action::PlaylistsUpdated => Some(Action::Redraw),
            _ => None,
        }
    }
}

/// What the list of playlists answers to a notification.
pub open spec fn notify_playlists(action: Action) -> Option<Action> {
    match action {
        Action::PlaylistsUpdated => Some(Action::Redraw),
        _ => None,
    }
}

/// One playlist and its entries, fetched page by page.
#[derive(Debug)]
pub struct PlaylistScreen {
    pub cursor: Cursor,
    pub playlist: Playlist,
}

impl PlaylistScreen {
    pub open spec fn wf(&self) -> bool {
        &&& self.playlist@.tracks.wf()
        &&& self.cursor@.fits(self.playlist@.tracks.items.len())
    }

    /// The selected entry, if there is one.
    pub open spec fn selected(&self) -> Option<PlaylistTrack> {
        item_at(self.playlist@.tracks.items, self.cursor@.index)
    }

    pub fn new(playlist: Playlist) -> (r: PlaylistScreen)
        requires
            playlist@.tracks.wf(),
        ensures
            r.wf(),
            r.cursor@ == (CursorModel { index: 0, offset: 0 }),
            r.playlist == playlist,
    {
        PlaylistScreen { cursor: Cursor::new(), playlist }
    }

    /// How the playlist answers a key press in a terminal of `cols` columns
    /// and `rows` rows: `after` is the screen afterwards, `r` what it asks of
    /// the dispatcher.
    pub open spec fn answers(self, input: KeyBinding, cols: u16, rows: u16, after: PlaylistScreen, r: Option<Action>) -> bool {
        &&& after.playlist@.id == self.playlist@.id
        &&& after.playlist@.name == self.playlist@.name
        &&& match input {
            KeyBinding::Enter => {
                &&& after == self
                &&& match self.selected() {
                    Some(e) => match e.track {
                        Some(t) => r == Some(Action::Request(NetworkRequest::PlayUri(t.uri))),
                        None => r is None,
                    },
                    None => r is None,
                }
            },
            KeyBinding::InfoPopup => {
                &&& after == self
                &&& match self.selected() {
                    Some(e) => match e.track {
                        Some(t) => r matches Some(Action::Popup(p)) && popup_of(p, t.info_lines(), cols, rows),
                        None => r is None,
                    },
                    None => r is None,
                }
            },
            _ => (after.cursor@, after.playlist@.tracks, r) == key_step(
                self.cursor@,
                self.playlist@.tracks,
                input,
                list_height(rows as nat),
            ),
        }
    }

    /// `Enter` plays the selected track, `InfoPopup` shows it; with no track
    /// selected they do nothing. Other keys go to the cursor.
    pub fn receive_input(&mut self, input: KeyBinding, cols: u16, rows: u16) -> (r: Option<Action>)
        requires
            old(self).wf(),
        ensures
            final(self).wf(),
            old(self).answers(input, cols, rows, *final(self), r),
    {
        match input {
            KeyBinding::Enter => {
                match self.cursor.selected_item(self.playlist.items().as_slice()) {
                    Some(e) => match &e.track {
                        Some(t) => Some(Action::Request(NetworkRequest::PlayUri(t.uri.clone()))),
                        None => None,
                    },
                    None => None,
                }
            },
            KeyBinding::InfoPopup => {
                match self.cursor.selected_item(self.playlist.items().as_slice()) {
                    Some(e) => match &e.track {
                        Some(t) => Some(Action::Popup(t.info_popup(cols, rows))),
                        None => None,
                    },
                    None => None,
                }
            },
            _ => {
                let tracks = self.playlist.tracks_mut();
                self.cursor.receive_input(input, tracks, list_rows(rows))
            },
        }
    }

    /// A playlist answers no notification.
    pub fn notify(&mut self, action: Action) -> (r: Option<Action>)
        ensures
            *final(self) == *old(self),
            r is None,
    {
        None
    }
}

/// One navigable view.
#[derive(Debug)]
pub enum Screen {
    Playlists(PlaylistsScreen),
    Playlist(PlaylistScreen),
}

impl Screen {
    pub open spec fn wf(self) -> bool {
        match self {
            Screen::Playlists(s) => s.wf(),
            Screen::Playlist(s) => s.wf(),
        }
    }

    /// The screen holds the list of playlists and that list is `id`.
    pub open spec fn owns_summaries(self, id: PageId) -> bool {
        self matches Screen::Playlists(s) && s.playlists@.page_id.names_same(id)
    }

    /// The screen holds a playlist whose entries are `id`.
    pub open spec fn owns_tracks(self, id: PageId) -> bool {
        self matches Screen::Playlist(s) && s.playlist@.tracks.page_id.names_same(id)
    }

    /// How the screen answers a key press; see the screens' own `answers`.
    pub open spec fn answers(self, input: KeyBinding, cols: u16, rows: u16, after: Screen, r: Option<Action>) -> bool {
        match (self, after) {
            (Screen::Playlists(s), Screen::Playlists(s2)) => s.answers(input, cols, rows, s2, r),
            (Screen::Playlist(s), Screen::Playlist(s2)) => s.answers(input, cols, rows, s2, r),
            _ => false,
        }
    }

    /// What the screen answers to a notification.
    pub open spec fn notified(self, action: Action) -> Option<Action> {
        match self {
            Screen::Playlists(_) => notify_playlists(action),
            Screen::Playlist(_) => None,
        }
    }

    /// Whether the screen holds the collection `id`: the list of playlists
    /// when `tracks` is false, a playlist's entries when it is true.
    pub open spec fn owns(self, id: PageId, tracks: bool) -> bool {
        if tracks {
            self.owns_tracks(id)
        } else {
            self.owns_summaries(id)
        }
    }

    pub fn holds(&self, id: &PageId, tracks: bool) -> (r: bool)
        ensures
            r == self.owns(*id, tracks),
    {
        match self {
            Screen::Playlists(s) => !tracks && s.playlists.page_id().same_as(id),
            Screen::Playlist(s) => tracks && s.playlist.tracks().page_id().same_as(id),
        }
    }

    /// Merges a page of summaries into the list of playlists; the selection
    /// stays where it was.
    pub fn merge_summaries(&mut self, page: Paged<PlaylistSummary>)
        requires
            old(self).wf(),
            *old(self) is Playlists,
            page.wf(),
        ensures
            final(self).wf(),
            *final(self) matches Screen::Playlists(b) && *old(self) matches Screen::Playlists(a)
                && b.cursor == a.cursor && b.playlists@ == a.playlists@.merge(page@),
    {
        match self {
            Screen::Playlists(s) => s.playlists.add_page(page),
            Screen::Playlist(_) => {},
        }
    }

    /// Merges a page of entries into a playlist; the selection stays where it
    /// was.
    pub fn merge_tracks(&mut self, page: Paged<PlaylistTrack>)
        requires
            old(self).wf(),
            *old(self) is Playlist,
            page.wf(),
        ensures
            final(self).wf(),
            *final(self) matches Screen::Playlist(b) && *old(self) matches Screen::Playlist(a)
                && b.cursor == a.cursor && b.playlist@ == (PlaylistView { tracks: a.playlist@.tracks.merge(page@), ..a.playlist@ }),
    {
        match self {
            Screen::Playlist(s) => s.playlist.tracks_mut().add_page(page),
            Screen::Playlists(_) => {},
        }
    }

    /// A request for the collection `id` failed; the screen may ask again.
    pub fn fetch_failed(&mut self, id: &PageId, tracks: bool)
        requires
            old(self).wf(),
        ensures
            final(self).wf(),
            match (*old(self), *final(self)) {
                (Screen::Playlists(a), Screen::Playlists(b)) => b.cursor == a.cursor && b.playlists@ == (PagedView { loading: false, ..a.playlists@ }),
                (Screen::Playlist(a), Screen::Playlist(b)) => b.cursor == a.cursor && b.playlist@ == (PlaylistView {
                    tracks: PagedView { loading: false, ..a.playlist@.tracks },
                    ..a.playlist@
                }),
                _ => false,
            },
    {
        match self {
            Screen::Playlists(s) => s.playlists.fetch_failed(),
            Screen::Playlist(s) => s.playlist.tracks_mut().fetch_failed(),
        }
    }

    pub fn receive_input(&mut self, input: KeyBinding, cols: u16, rows: u16) -> (r: Option<Action>)
        requires
            old(self).wf(),
        ensures
            final(self).wf(),
            old(self).answers(input, cols, rows, *final(self), r),
    {
        match self {
            Screen::Playlists(s) => s.receive_input(input, cols, rows),
            Screen::Playlist(s) => s.receive_input(input, cols, rows),
        }
    }

    pub fn notify(&mut self, action: Action) -> (r: Option<Action>)
        ensures
            *final(self) == *old(self),
            r == old(self).notified(action),
    {
        match self {
            Screen::Playlists(s) => s.notify(action),
            Screen::Playlist(s) => s.notify(action),
        }
    }
}

} // verus!
