//! A terminal browser for paginated playlists: selectable lists, a scrolling
//! cursor over lazily fetched pages, and a stack of screens that routes key
//! presses and page arrivals.

pub mod app;
pub mod config;
pub mod cursor;
pub mod data;
pub mod interactive_list;
pub mod keybindings;
pub mod paged;
pub mod player;
pub mod playlist;
pub mod popup;
pub mod screens;

pub use app::{Action, App, Effect, NetworkRequest};
pub use config::{Config, ConfigError};
pub use cursor::Cursor;
pub use data::{add_playlist, add_playlist_summaries};
pub use interactive_list::InteractiveList;
pub use keybindings::{default_keybindings, Key, KeyBinding};
pub use paged::{page_offset, NextPage, PageId, Paged, PAGE_SIZE};
pub use player::{Playback, PlaybackCommand};
pub use playlist::{Playlist, PlaylistSummary, PlaylistTrack, Track};
pub use popup::Popup;
pub use screens::{BoundingBox, PlaylistScreen, PlaylistsScreen, Screen};
