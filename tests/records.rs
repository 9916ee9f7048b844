use spotivi::{
    default_keybindings, Config, ConfigError, Key, KeyBinding, Playback, PlaybackCommand, PlaylistSummary, Popup, Track,
};

#[test]
fn summary_popup_lines() {
    let s = PlaylistSummary::new("Mix".to_string(), "id9".to_string(), true, None, None);
    assert_eq!(s.name(), "Mix");
    assert_eq!(s.id(), "id9");
    assert!(s.collaborative());
    assert_eq!(s.owner_name(), None);
    assert_eq!(s.is_public(), None);
    let p = s.info_popup(100, 40);
    assert_eq!(p.lines, vec!["Name: Mix".to_string(), "Owner: <unknown>".to_string(), "Collaborative: true".to_string()]);

    let s = PlaylistSummary::new("A".to_string(), "B".to_string(), false, Some("Zoe".to_string()), Some(false));
    assert_eq!(s.owner_name(), Some("Zoe"));
    let p = s.info_popup(7, 3);
    assert_eq!(p.lines[3], "Public: no");
    assert_eq!(p.lines[1], "Owner: Zoe");
    assert_eq!((p.x, p.y, p.width), (1, 0, 2));
}

#[test]
fn track_popup_joins_artists() {
    let t = Track::new("Song".to_string(), vec!["A".to_string(), "B".to_string(), "C".to_string()], "u".to_string());
    assert_eq!(t.info_popup(80, 24).lines, vec!["Title: Song".to_string(), "Artist: A, B, C".to_string()]);
    let t = Track::new("Solo".to_string(), vec!["Only".to_string()], "u".to_string());
    assert_eq!(t.info_popup(80, 24).lines[1], "Artist: Only");
    let t = Track::new("None".to_string(), vec![], "u".to_string());
    assert_eq!(t.info_popup(80, 24).lines[1], "Artist: ");
}

#[test]
fn popup_geometry_and_padding() {
    let p = Popup::new(vec!["abc".to_string()], 81, 25);
    assert_eq!((p.x, p.y, p.width), (20, 6, 40));
    assert_eq!(p.line_padding(3), (17, 18));
    assert_eq!(p.line_padding(38), (0, 0));
    assert_eq!(p.line_padding(39), (0, 0));
    assert_eq!(p.line_padding(0), (19, 19));
}

#[test]
fn config_lines() {
    let mut c = Config::new();
    assert_eq!(c.redirect_uri, "http://localhost:8888/callback");
    assert_eq!(c.read_line("api_client_id = abc"), Ok(()));
    assert_eq!(c.api_client_id, "abc");
    assert_eq!(c.read_line("  api_client_secret=s3cr3t  "), Ok(()));
    assert_eq!(c.api_client_secret, "s3cr3t");
    assert_eq!(c.read_line("redirect_uri = http://x/cb"), Ok(()));
    assert_eq!(c.redirect_uri, "http://x/cb");
    assert_eq!(c.read_line("colour = blue"), Err(ConfigError::UnknownKey));
    assert_eq!(c.read_line("just words here"), Err(ConfigError::MalformedLine));
    assert_eq!(c.read_line(""), Err(ConfigError::MalformedLine));
    assert_eq!(c.api_client_id, "abc");
}

#[test]
fn config_file_stops_at_first_bad_line() {
    let mut c = Config::new();
    let lines = vec!["api_client_id = one".to_string(), "nonsense".to_string(), "api_client_secret = two".to_string()];
    assert_eq!(c.read_config_file(&lines), Err(ConfigError::MalformedLine));
    assert_eq!(c.api_client_id, "one");
    assert_eq!(c.api_client_secret, "");

    let mut c = Config::new();
    let lines = vec!["api_client_id = one".to_string(), "api_client_secret = two".to_string()];
    assert_eq!(c.read_config_file(&lines), Ok(()));
    assert_eq!(c.api_client_secret, "two");
    assert_eq!(c.apply_entry("redirect_uri", "r"), Ok(()));
    assert_eq!(c.redirect_uri, "r");
    assert_eq!(c.apply_entry("other", "r"), Err(ConfigError::UnknownKey));
}

#[test]
fn playback_toggles() {
    let mut p = Playback::new();
    assert_eq!(p.toggle_command(), PlaybackCommand::Resume);
    p.command_done(PlaybackCommand::Resume);
    assert!(p.playing);
    assert_eq!(p.toggle_command(), PlaybackCommand::Pause);
    p.command_done(PlaybackCommand::Pause);
    assert!(!p.playing);
    p.set_device_id(Some("dev".to_string()));
    p.set_playing(true);
    assert_eq!(p.device_id.as_deref(), Some("dev"));
    assert_eq!(p.toggle_command(), PlaybackCommand::Pause);
}

#[test]
fn default_bindings() {
    let keys = default_keybindings();
    assert_eq!(keys, vec![
        (Key::Char('q'), KeyBinding::Quit),
        (Key::Char('k'), KeyBinding::Up),
        (Key::Char('j'), KeyBinding::Down),
        (Key::Enter, KeyBinding::Enter),
        (Key::ShiftChar('K'), KeyBinding::InfoPopup),
        (Key::Esc, KeyBinding::Back),
    ]);
}
