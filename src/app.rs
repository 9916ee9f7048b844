use vstd::prelude::*;

use crate::keybindings::KeyBinding;
use crate::paged::{NextPage, PageId, Paged, PagedView};
use crate::playlist::{PlaylistSummary, PlaylistTrack, PlaylistView};
use crate::popup::Popup;
use crate::screens::{PlaylistsScreen, Screen};

verus! {

/// Work for the network side.
#[derive(Debug)]
pub enum NetworkRequest {
    LoadNextPage(PageId, NextPage),
    LoadPlaylist(String),
    GetDevices,
    TogglePlayback,
    PlayUri(String),
}

/// What handling a key press or a notification asks the dispatcher to do.
#[derive(Debug)]
pub enum Action {
    /// Playlist summaries arrived.
    PlaylistsUpdated,
    Redraw,
    Quit,
    Key(KeyBinding),
    Popup(Popup),
    PushScreen(Box<Screen>),
    PopScreen,
    /// Send the request, then redraw.
    Request(NetworkRequest),
}

/// What the terminal and network side is to do after the dispatcher has
/// handled an event.
#[derive(Debug)]
pub enum Effect {
    /// Draw the active screen again.
    Redraw,
    /// Draw the popup that the dispatcher now holds.
    ShowPopup,
    Send(NetworkRequest),
    /// Leave the terminal and end the process.
    Exit,
}

/// Notifications go to the active screen; everything else the dispatcher
/// handles itself.
pub open spec fn is_notification(action: Action) -> bool {
    action is PlaylistsUpdated || action is Key
}

/// The screens, bottom first, and the popup shown over them, if any.
pub struct AppView {
    pub screens: Seq<Screen>,
    pub popup: Option<Popup>,
}

impl AppView {
    pub open spec fn wf(self) -> bool {
        forall|i: int| 0 <= i < self.screens.len() ==> (#[trigger] self.screens[i]).wf()
    }

    pub open spec fn push(self, s: Screen) -> AppView {
        AppView { screens: self.screens.push(s), ..self }
    }

    pub open spec fn pop(self) -> AppView {
        if self.screens.len() == 0 {
            self
        } else {
            AppView { screens: self.screens.drop_last(), ..self }
        }
    }

    pub open spec fn replace_top(self, s: Screen) -> AppView {
        AppView { screens: self.screens.update(self.screens.len() - 1, s), ..self }
    }

    /// What the dispatcher does with an action that is not a notification.
    pub open spec fn apply(self, action: Action) -> (AppView, Seq<Effect>) {
        match action {
            Action::Redraw => (self, seq![Effect::Redraw]),
            Action::Quit => (self, seq![Effect::Exit]),
            Action::Popup(p) => (AppView { popup: Some(p), ..self }, seq![Effect::ShowPopup]),
            Action::PushScreen(s) => (self.push(*s), seq![Effect::Redraw]),
            Action::PopScreen => {
                let v = self.pop();
                (v, if v.screens.len() == 0 { seq![Effect::Exit] } else { seq![Effect::Redraw] })
            },
            Action::Request(req) => (self, seq![Effect::Send(req), Effect::Redraw]),
            _ => (self, Seq::<Effect>::empty()),
        }
    }

    /// Screen `i` is the topmost one that holds the collection `id`.
    pub open spec fn topmost_owner(self, id: PageId, tracks: bool, i: int) -> bool {
        &&& 0 <= i < self.screens.len()
        &&& self.screens[i].owns(id, tracks)
        &&& forall|j: int| i < j < self.screens.len() ==> !(#[trigger] self.screens[j]).owns(id, tracks)
    }

    /// No screen holds the collection `id`.
    pub open spec fn no_owner(self, id: PageId, tracks: bool) -> bool {
        forall|j: int| 0 <= j < self.screens.len() ==> !(#[trigger] self.screens[j]).owns(id, tracks)
    }

    /// `after` differs from this state at most in screen `i`.
    pub open spec fn same_but(self, after: AppView, i: int) -> bool {
        &&& after.popup == self.popup
        &&& after.screens.len() == self.screens.len()
        &&& forall|j: int| 0 <= j < self.screens.len() && j != i ==> after.screens[j] == self.screens[j]
    }

    /// How the dispatcher answers a key press in a terminal of `cols`
    /// columns and `rows` rows. Any key closes an open popup. `Quit` ends
    /// the process and `Back` pops the active screen; other keys go to the
    /// active screen, and what it answers is handled.
    pub open spec fn key_outcome(self, key: KeyBinding, cols: u16, rows: u16, after: AppView, effects: Seq<Effect>) -> bool {
        if self.popup is Some {
            after == (AppView { popup: None, ..self }) && effects == seq![Effect::Redraw]
        } else {
            match key {
                KeyBinding::Quit => after == self && effects == seq![Effect::Exit],
                KeyBinding::Back => (after, effects) == self.dispatch(Action::PopScreen),
                _ => if self.screens.len() == 0 {
                    after == self && effects.len() == 0
                } else {
                    exists|s: Screen, a: Option<Action>| {
                        &&& #[trigger] self.screens.last().answers(key, cols, rows, s, a)
                        &&& match a {
                            Some(a) => (after, effects) == self.replace_top(s).dispatch(a),
                            None => after == self.replace_top(s) && effects.len() == 0,
                        }
                    }
                },
            }
        }
    }

    /// What the dispatcher does with an action: a notification goes to the
    /// active screen, and what that screen answers is applied.
    pub open spec fn dispatch(self, action: Action) -> (AppView, Seq<Effect>) {
        if is_notification(action) {
            if self.screens.len() == 0 {
                (self, Seq::<Effect>::empty())
            } else {
                match self.screens.last().notified(action) {
                    Some(a) => self.apply(a),
                    None => (self, Seq::<Effect>::empty()),
                }
            }
        } else {
            self.apply(action)
        }
    }
}

/// Pushing a screen and popping it again gives back the same stack, with
/// each screen as it was, and the screen below is drawn again.
pub proof fn lemma_push_then_pop(v: AppView, s: Screen)
    ensures
        v.dispatch(Action::PushScreen(Box::new(s))).0.dispatch(Action::PopScreen).0 == v,
        v.screens.len() > 0 ==> v.dispatch(Action::PushScreen(Box::new(s))).0.dispatch(Action::PopScreen).1
            == seq![Effect::Redraw],
{
    assert(v.push(s).screens.drop_last() =~= v.screens);
}

fn one_effect(e: Effect) -> (r: Vec<Effect>)
    ensures
        r@ == seq![e],
{
    let mut v: Vec<Effect> = Vec::new();
    v.push(e);
    v
}

/// The stack of screens, whose top is the active one, and the popup shown
/// over it.
#[derive(Debug)]
pub struct App {
    screens: Vec<Screen>,
    popup: Option<Popup>,
}

impl View for App {
    type V = AppView;

    closed spec fn view(&self) -> AppView {
        AppView { screens: self.screens@, popup: self.popup }
    }
}

impl App {
    pub open spec fn wf(&self) -> bool {
        self@.wf()
    }

    /// The list of playlists, alone on the stack.
    pub fn new() -> (r: App)
        ensures
            r.wf(),
            r@.popup is None,
            r@.screens.len() == 1,
            r@.screens[0] matches Screen::Playlists(s) && s.is_fresh(),
    {
        let mut screens: Vec<Screen> = Vec::new();
        screens.push(Screen::Playlists(PlaylistsScreen::new()));
        App { screens, popup: None }
    }

    /// The active screen; none once the last screen has been popped.
    pub fn current_screen(&self) -> (r: Option<&Screen>)
        ensures
            self@.screens.len() == 0 ==> r is None,
            self@.screens.len() > 0 ==> r == Some(&self@.screens.last()),
    {
        if self.screens.len() == 0 {
            None
        } else {
            Some(&self.screens[self.screens.len() - 1])
        }
    }

    pub fn screen_count(&self) -> (r: usize)
        ensures
            r == self@.screens.len(),
    {
        self.screens.len()
    }

    /// The popup shown over the active screen, if any.
    pub fn popup(&self) -> (r: Option<&Popup>)
        ensures
            match self@.popup {
                Some(p) => r == Some(&p),
                None => r is None,
            },
    {
        self.popup.as_ref()
    }

    fn apply(&mut self, action: Action) -> (r: Vec<Effect>)
        requires
            old(self).wf(),
            action matches Action::PushScreen(s) ==> s.wf(),
        ensures
            final(self).wf(),
            (final(self)@, r@) == old(self)@.apply(action),
    {
        match action {
            Action::Redraw => one_effect(Effect::Redraw),
            Action::Quit => one_effect(Effect::Exit),
            Action::Popup(p) => self.display_popup(p),
            Action::PushScreen(s) => self.add_screen(*s),
            Action::PopScreen => {
                self.screens.pop();
                assert forall|i: int| 0 <= i < self@.screens.len() implies (#[trigger] self@.screens[i]).wf() by {
                    assert(self@.screens[i] == old(self)@.screens[i]);
                }
                assert(self@ == old(self)@.pop());
                if self.screens.len() == 0 {
                    one_effect(Effect::Exit)
                } else {
                    one_effect(Effect::Redraw)
                }
            },
            Action::Request(req) => {
                let mut effects = one_effect(Effect::Send(req));
                effects.push(Effect::Redraw);
                effects
            },
            _ => Vec::new(),
        }
    }

    /// Handles an action; see `AppView::dispatch`.
    pub fn handle_action(&mut self, action: Action) -> (r: Vec<Effect>)
        requires
            old(self).wf(),
            action matches Action::PushScreen(s) ==> s.wf(),
        ensures
            final(self).wf(),
            (final(self)@, r@) == old(self)@.dispatch(action),
    {
        match action {
            Action::PlaylistsUpdated | Action::Key(_) => {
                let n: usize = self.screens.len();
                if n == 0 {
                    return Vec::new();
                }
                let answer = self.screens[n - 1].notify(action);
                assert(self@.screens =~= old(self)@.screens);
                match answer {
                    Some(a) => self.apply(a),
                    None => Vec::new(),
                }
            },
            _ => self.apply(action),
        }
    }

    /// Handles a key press in a terminal of `cols` columns and `rows` rows;
    /// see `AppView::key_outcome`.
    pub fn handle_key(&mut self, key: KeyBinding, cols: u16, rows: u16) -> (r: Vec<Effect>)
        requires
            old(self).wf(),
        ensures
            final(self).wf(),
            old(self)@.key_outcome(key, cols, rows, final(self)@, r@),
    {
        if self.popup.is_some() {
            self.popup = None;
            return one_effect(Effect::Redraw);
        }
        match key {
            KeyBinding::Quit => one_effect(Effect::Exit),
            KeyBinding::Back => self.handle_action(Action::PopScreen),
            _ => {
                let n: usize = self.screens.len();
                if n == 0 {
                    return Vec::new();
                }
                let ghost before = self@;
                let answer = self.screens[n - 1].receive_input(key, cols, rows);
                let ghost s = self@.screens[n - 1];
                assert(self@ == before.replace_top(s)) by {
                    assert(self@.screens =~= before.screens.update(n - 1, s));
                }
                assert(before.screens.last().answers(key, cols, rows, s, answer));
                assert forall|i: int| 0 <= i < self@.screens.len() implies (#[trigger] self@.screens[i]).wf() by {
                    if i != n - 1 {
                        assert(self@.screens[i] == before.screens[i]);
                    }
                }
                match answer {
                    Some(a) => self.handle_action(a),
                    None => Vec::new(),
                }
            },
        }
    }

    /// Finds the topmost screen that holds the collection `id`.
    fn find_owner(&self, id: &PageId, tracks: bool) -> (r: Option<usize>)
        ensures
            match r {
                Some(i) => self@.topmost_owner(*id, tracks, i as int),
                None => self@.no_owner(*id, tracks),
            },
    {
        let mut i: usize = self.screens.len();
        while i > 0
            invariant
                i <= self.screens@.len(),
                forall|j: int| i <= j < self@.screens.len() ==> !(#[trigger] self@.screens[j]).owns(*id, tracks),
            decreases i,
        {
            if self.screens[i - 1].holds(id, tracks) {
                return Some(i - 1);
            }
            i = i - 1;
        }
        None
    }

    /// A page of playlist summaries arrived: it is merged into the topmost
    /// list of playlists, and the active screen is notified. With no such
    /// list the page is dropped.
    pub fn add_summaries(&mut self, page: Paged<PlaylistSummary>) -> (r: Vec<Effect>)
        requires
            old(self).wf(),
            page.wf(),
        ensures
            final(self).wf(),
            forall|i: int| #[trigger] old(self)@.topmost_owner(page@.page_id, false, i) ==> {
                &&& old(self)@.same_but(final(self)@, i)
                &&& final(self)@.screens[i] matches Screen::Playlists(b) && old(self)@.screens[i] matches Screen::Playlists(a)
                    && b.cursor == a.cursor && b.playlists@ == a.playlists@.merge(page@)
                &&& (final(self)@, r@) == final(self)@.dispatch(Action::PlaylistsUpdated)
            },
            old(self)@.no_owner(page@.page_id, false) ==> final(self)@ == old(self)@ && r@.len() == 0,
    {
        match self.find_owner(page.page_id(), false) {
            Some(i) => {
                let ghost before = self@;
                self.screens[i].merge_summaries(page);
                assert forall|j: int| 0 <= j < self@.screens.len() implies (#[trigger] self@.screens[j]).wf() by {
                    if j != i {
                        assert(self@.screens[j] == before.screens[j]);
                    }
                }
                self.handle_action(Action::PlaylistsUpdated)
            },
            None => Vec::new(),
        }
    }

    /// A page of a playlist's entries arrived: it is merged into the topmost
    /// screen of that playlist, which is redrawn when it is the active one.
    /// With no such screen the page is dropped.
    pub fn add_tracks(&mut self, page: Paged<PlaylistTrack>) -> (r: Vec<Effect>)
        requires
            old(self).wf(),
            page.wf(),
        ensures
            final(self).wf(),
            forall|i: int| #[trigger] old(self)@.topmost_owner(page@.page_id, true, i) ==> {
                &&& old(self)@.same_but(final(self)@, i)
                &&& final(self)@.screens[i] matches Screen::Playlist(b) && old(self)@.screens[i] matches Screen::Playlist(a)
                    && b.cursor == a.cursor
                    && b.playlist@ == (PlaylistView { tracks: a.playlist@.tracks.merge(page@), ..a.playlist@ })
                &&& r@ == if i == old(self)@.screens.len() - 1 { seq![Effect::Redraw] } else { Seq::<Effect>::empty() }
            },
            old(self)@.no_owner(page@.page_id, true) ==> final(self)@ == old(self)@ && r@.len() == 0,
    {
        match self.find_owner(page.page_id(), true) {
            Some(i) => {
                let ghost before = self@;
                self.screens[i].merge_tracks(page);
                assert forall|j: int| 0 <= j < self@.screens.len() implies (#[trigger] self@.screens[j]).wf() by {
                    if j != i {
                        assert(self@.screens[j] == before.screens[j]);
                    }
                }
                if i == self.screens.len() - 1 {
                    one_effect(Effect::Redraw)
                } else {
                    Vec::new()
                }
            },
            None => Vec::new(),
        }
    }

    /// A request for the collection `id` failed: the topmost screen that
    /// holds it may ask again. Nothing is merged.
    pub fn fetch_failed(&mut self, id: &PageId)
        requires
            old(self).wf(),
        ensures
            final(self).wf(),
            forall|i: int| #[trigger] old(self)@.topmost_owner(*id, id is Playlist, i) ==> {
                &&& old(self)@.same_but(final(self)@, i)
                &&& match (old(self)@.screens[i], final(self)@.screens[i]) {
                    (Screen::Playlists(a), Screen::Playlists(b)) => b.cursor == a.cursor
                        && b.playlists@ == (PagedView { loading: false, ..a.playlists@ }),
                    (Screen::Playlist(a), Screen::Playlist(b)) => b.cursor == a.cursor && b.playlist@ == (PlaylistView {
                        tracks: PagedView { loading: false, ..a.playlist@.tracks },
                        ..a.playlist@
                    }),
                    _ => false,
                }
            },
            old(self)@.no_owner(*id, id is Playlist) ==> final(self)@ == old(self)@,
    {
        let tracks: bool = match id {
            PageId::Playlist(_) => true,
            PageId::Playlists => false,
        };
        match self.find_owner(id, tracks) {
            Some(i) => {
                let ghost before = self@;
                self.screens[i].fetch_failed(id, tracks);
                assert forall|j: int| 0 <= j < self@.screens.len() implies (#[trigger] self@.screens[j]).wf() by {
                    if j != i {
                        assert(self@.screens[j] == before.screens[j]);
                    }
                }
            },
            None => {},
        }
    }

    /// Pushes a screen, which becomes the active one, and redraws.
    pub fn add_screen(&mut self, s: Screen) -> (r: Vec<Effect>)
        requires
            old(self).wf(),
            s.wf(),
        ensures
            final(self).wf(),
            final(self)@ == old(self)@.push(s),
            r@ == seq![Effect::Redraw],
    {
        self.screens.push(s);
        one_effect(Effect::Redraw)
    }

    /// Shows a popup over the active screen until the next key press.
    pub fn display_popup(&mut self, popup: Popup) -> (r: Vec<Effect>)
        requires
            old(self).wf(),
        ensures
            final(self).wf(),
            final(self)@ == (AppView { popup: Some(popup), ..old(self)@ }),
            r@ == seq![Effect::ShowPopup],
    {
        self.popup = Some(popup);
        one_effect(Effect::ShowPopup)
    }
}

} // verus!
