use vstd::prelude::*;

use crate::app::{Action, App, Effect};
use crate::paged::Paged;
use crate::playlist::{Playlist, PlaylistSummary};
use crate::screens::{PlaylistScreen, Screen};

verus! {

/// A requested playlist arrived: a screen for it is pushed and becomes the
/// active one.
pub fn add_playlist(app: &mut App, p: Playlist) -> (r: Vec<Effect>)
    requires
        old(app).wf(),
        p@.tracks.wf(),
    ensures
        final(app).wf(),
        final(app)@.screens.len() == old(app)@.screens.len() + 1,
        final(app)@.screens.drop_last() == old(app)@.screens,
        final(app)@.screens.last() matches Screen::Playlist(s) && s.playlist == p && s.cursor@.index == 0
            && s.cursor@.offset == 0,
        final(app)@.popup == old(app)@.popup,
        r@ == seq![Effect::Redraw],
{
    let ghost before = app@;
    let r = app.add_screen(Screen::Playlist(PlaylistScreen::new(p)));
    assert(app@.screens.drop_last() =~= before.screens);
    r
}

/// A page of playlist summaries arrived; see `App::add_summaries`.
pub fn add_playlist_summaries(app: &mut App, p: Paged<PlaylistSummary>) -> (r: Vec<Effect>)
    requires
        old(app).wf(),
        p.wf(),
    ensures
        final(app).wf(),
        forall|i: int| #[trigger] old(app)@.topmost_owner(p@.page_id, false, i) ==> {
            &&& old(app)@.same_but(final(app)@, i)
            &&& final(app)@.screens[i] matches Screen::Playlists(b) && old(app)@.screens[i] matches Screen::Playlists(a)
                && b.cursor == a.cursor && b.playlists@ == a.playlists@.merge(p@)
            &&& (final(app)@, r@) == final(app)@.dispatch(Action::PlaylistsUpdated)
        },
        old(app)@.no_owner(p@.page_id, false) ==> final(app)@ == old(app)@ && r@.len() == 0,
{
    app.add_summaries(p)
}

} // verus!
