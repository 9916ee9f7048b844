use spotivi::{
    add_playlist, add_playlist_summaries, Action, App, Effect, KeyBinding, NetworkRequest, PageId, Paged,
    Playlist, PlaylistScreen, PlaylistSummary, PlaylistTrack, Screen, Track,
};

fn summary(name: &str, id: &str) -> PlaylistSummary {
    PlaylistSummary::new(name.to_string(), id.to_string(), false, Some("owner".to_string()), Some(true))
}

fn summaries(n: usize, next: Option<&str>) -> Paged<PlaylistSummary> {
    let mut v = Vec::new();
    for i in 0..n {
        v.push(summary(&format!("list {}", i), &format!("id{}", i)));
    }
    Paged::from(v, next.map(|s| s.to_string()), PageId::Playlists)
}

fn track(name: &str, uri: &str) -> PlaylistTrack {
    PlaylistTrack::new(false, Some(Track::new(name.to_string(), vec!["Ann".to_string(), "Bob".to_string()], uri.to_string())))
}

fn playlist(id: &str, n: usize, next: Option<&str>) -> Playlist {
    let mut v = Vec::new();
    for i in 0..n {
        v.push(track(&format!("song {}", i), &format!("uri:{}", i)));
    }
    Playlist::new(id.to_string(), format!("name of {}", id), v, next.map(|s| s.to_string()))
}

fn top_playlists(app: &App) -> (usize, usize, usize, u32, bool) {
    match app.current_screen() {
        Some(Screen::Playlists(s)) => (
            s.cursor.index(),
            s.cursor.scroll_offset(),
            s.playlists.len(),
            s.playlists.page_index(),
            s.playlists.is_loading(),
        ),
        other => panic!("not the list of playlists: {:?}", other),
    }
}

#[test]
fn push_then_pop_restores_screen() {
    let mut app = App::new();
    add_playlist_summaries(&mut app, summaries(6, Some("more")));
    app.handle_key(KeyBinding::Down, 80, 5);
    app.handle_key(KeyBinding::Down, 80, 5);
    let before = top_playlists(&app);
    assert_eq!(before, (2, 0, 6, 1, false));

    let effects = app.handle_action(Action::PushScreen(Box::new(Screen::Playlist(PlaylistScreen::new(playlist("mix", 3, None))))));
    assert!(matches!(effects.as_slice(), [Effect::Redraw]));
    assert_eq!(app.screen_count(), 2);
    app.handle_key(KeyBinding::Down, 80, 5);

    let effects = app.handle_action(Action::PopScreen);
    assert!(matches!(effects.as_slice(), [Effect::Redraw]));
    assert_eq!(app.screen_count(), 1);
    assert_eq!(top_playlists(&app), before);
}

#[test]
fn back_key_pops_and_last_pop_exits() {
    let mut app = App::new();
    let effects = add_playlist(&mut app, playlist("mix", 2, None));
    assert!(matches!(effects.as_slice(), [Effect::Redraw]));
    assert!(matches!(app.current_screen(), Some(Screen::Playlist(_))));
    let effects = app.handle_key(KeyBinding::Back, 80, 24);
    assert!(matches!(effects.as_slice(), [Effect::Redraw]));
    assert!(matches!(app.current_screen(), Some(Screen::Playlists(_))));
    let effects = app.handle_key(KeyBinding::Back, 80, 24);
    assert!(matches!(effects.as_slice(), [Effect::Exit]));
    assert!(app.current_screen().is_none());
    assert!(app.handle_key(KeyBinding::Down, 80, 24).is_empty());
}

#[test]
fn quit_exits() {
    let mut app = App::new();
    assert!(matches!(app.handle_key(KeyBinding::Quit, 80, 24).as_slice(), [Effect::Exit]));
    assert!(matches!(app.handle_action(Action::Quit).as_slice(), [Effect::Exit]));
    assert_eq!(app.screen_count(), 1);
}

#[test]
fn enter_requests_selected_playlist() {
    let mut app = App::new();
    assert!(app.handle_key(KeyBinding::Enter, 80, 24).is_empty());
    add_playlist_summaries(&mut app, summaries(3, None));
    app.handle_key(KeyBinding::Down, 80, 24);
    let effects = app.handle_key(KeyBinding::Enter, 80, 24);
    match effects.as_slice() {
        [Effect::Send(NetworkRequest::LoadPlaylist(id)), Effect::Redraw] => assert_eq!(id, "id1"),
        other => panic!("unexpected effects {:?}", other),
    }
}

#[test]
fn info_popup_and_any_key_closes_it() {
    let mut app = App::new();
    add_playlist_summaries(&mut app, summaries(2, None));
    let effects = app.handle_key(KeyBinding::InfoPopup, 80, 24);
    assert!(matches!(effects.as_slice(), [Effect::ShowPopup]));
    let popup = app.popup().unwrap();
    assert_eq!(popup.lines, vec![
        "Name: list 0".to_string(),
        "Owner: owner".to_string(),
        "Collaborative: false".to_string(),
        "Public: yes".to_string(),
    ]);
    assert_eq!((popup.x, popup.y, popup.width), (20, 6, 40));
    let effects = app.handle_key(KeyBinding::Down, 80, 24);
    assert!(matches!(effects.as_slice(), [Effect::Redraw]));
    assert!(app.popup().is_none());
    assert_eq!(top_playlists(&app).0, 0);
}

#[test]
fn summaries_arrive_and_redraw_the_list() {
    let mut app = App::new();
    let effects = add_playlist_summaries(&mut app, summaries(4, Some("more")));
    assert!(matches!(effects.as_slice(), [Effect::Redraw]));
    assert_eq!(top_playlists(&app), (0, 0, 4, 1, false));

    add_playlist(&mut app, playlist("mix", 2, None));
    let effects = add_playlist_summaries(&mut app, summaries(2, None));
    assert!(effects.is_empty());
    app.handle_key(KeyBinding::Back, 80, 24);
    assert_eq!(top_playlists(&app), (0, 0, 6, 2, false));
}

#[test]
fn scrolling_the_list_fetches_more() {
    let mut app = App::new();
    add_playlist_summaries(&mut app, summaries(3, Some("more")));
    let effects = app.handle_key(KeyBinding::Down, 80, 24);
    match effects.as_slice() {
        [Effect::Send(NetworkRequest::LoadNextPage(PageId::Playlists, np)), Effect::Redraw] => {
            assert_eq!(np.index, 1);
            assert_eq!(np.uri, "more");
        }
        other => panic!("unexpected effects {:?}", other),
    }
    assert!(matches!(app.handle_key(KeyBinding::Down, 80, 24).as_slice(), [Effect::Redraw]));
    app.fetch_failed(&PageId::Playlists);
    assert!(!top_playlists(&app).4);
    let effects = app.handle_key(KeyBinding::Up, 80, 24);
    assert!(matches!(effects.as_slice(), [Effect::Send(NetworkRequest::LoadNextPage(_, _)), Effect::Redraw]) || matches!(effects.as_slice(), [Effect::Redraw]));
    let effects = app.handle_key(KeyBinding::Down, 80, 24);
    assert!(matches!(effects.as_slice(), [Effect::Send(NetworkRequest::LoadNextPage(_, _)), Effect::Redraw]));
}

#[test]
fn playlist_screen_plays_and_grows() {
    let mut app = App::new();
    add_playlist(&mut app, playlist("mix", 3, Some("t2")));
    app.handle_key(KeyBinding::Down, 80, 24);
    let effects = app.handle_key(KeyBinding::Enter, 80, 24);
    match effects.as_slice() {
        [Effect::Send(NetworkRequest::PlayUri(uri)), Effect::Redraw] => assert_eq!(uri, "uri:1"),
        other => panic!("unexpected effects {:?}", other),
    }
    let effects = app.handle_key(KeyBinding::InfoPopup, 80, 24);
    assert!(matches!(effects.as_slice(), [Effect::ShowPopup]));
    assert_eq!(app.popup().unwrap().lines, vec!["Title: song 1".to_string(), "Artist: Ann, Bob".to_string()]);
    app.handle_key(KeyBinding::Enter, 80, 24);

    let page: Paged<PlaylistTrack> = Paged::from(vec![track("song 3", "uri:3")], None, PageId::Playlist("mix".to_string()));
    let effects = app.add_tracks(page);
    assert!(matches!(effects.as_slice(), [Effect::Redraw]));
    match app.current_screen() {
        Some(Screen::Playlist(s)) => {
            assert_eq!(s.playlist.items().len(), 4);
            assert_eq!(s.playlist.tracks().page_index(), 2);
            assert_eq!(s.cursor.index(), 1);
            assert_eq!(s.playlist.id(), "mix");
            assert_eq!(s.playlist.name(), "name of mix");
        }
        other => panic!("unexpected screen {:?}", other),
    }

    let stray: Paged<PlaylistTrack> = Paged::from(vec![track("x", "u")], None, PageId::Playlist("other".to_string()));
    assert!(app.add_tracks(stray).is_empty());
}

#[test]
fn entry_without_track_does_nothing() {
    let mut app = App::new();
    let p = Playlist::new("p".to_string(), "n".to_string(), vec![PlaylistTrack::new(true, None)], None);
    add_playlist(&mut app, p);
    assert!(app.handle_key(KeyBinding::Enter, 80, 24).is_empty());
    assert!(app.handle_key(KeyBinding::InfoPopup, 80, 24).is_empty());
}

#[test]
fn notifications_reach_the_active_screen() {
    let mut app = App::new();
    assert!(matches!(app.handle_action(Action::PlaylistsUpdated).as_slice(), [Effect::Redraw]));
    assert!(app.handle_action(Action::Key(KeyBinding::Down)).is_empty());
    add_playlist(&mut app, playlist("mix", 1, None));
    assert!(app.handle_action(Action::PlaylistsUpdated).is_empty());
    assert!(matches!(app.handle_action(Action::Redraw).as_slice(), [Effect::Redraw]));
}
