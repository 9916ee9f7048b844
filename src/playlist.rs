use vstd::prelude::*;

use crate::paged::{NextPage, PageId, Paged, PagedView};
use crate::popup::Popup;

verus! {

/// The texts of `parts` one after another, with `sep` between each two.
pub open spec fn joined(parts: Seq<Seq<char>>, sep: Seq<char>) -> Seq<char>
    decreases parts.len(),
{
    if parts.len() == 0 {
        Seq::<char>::empty()
    } else if parts.len() == 1 {
        parts[0]
    } else {
        joined(parts.drop_last(), sep) + sep + parts.last()
    }
}

/// The texts of a list of strings.
pub open spec fn texts(parts: Seq<String>) -> Seq<Seq<char>> {
    parts.map_values(|s: String| s@)
}

/// Relies on itertools::Itertools::join: the items' texts in order, with
/// `sep` written between each two.
#[verifier::external_body]
fn join_with(parts: &Vec<String>, sep: &str) -> (r: String)
    ensures
        r@ == joined(texts(parts@), sep@),
{
    itertools::Itertools::join(&mut parts.iter(), sep)
}

/// `yes` or `no`.
pub open spec fn yes_no(b: bool) -> Seq<char> {
    if b {
        "yes"@
    } else {
        "no"@
    }
}

/// `true` or `false`.
pub open spec fn bool_text(b: bool) -> Seq<char> {
    if b {
        "true"@
    } else {
        "false"@
    }
}

fn bool_string(b: bool) -> (r: String)
    ensures
        r@ == bool_text(b),
{
    if b {
        String::from_str("true")
    } else {
        String::from_str("false")
    }
}

/// `label` followed by `value`.
fn labelled(label: &str, value: &str) -> (r: String)
    ensures
        r@ == label@ + value@,
{
    let mut s = String::from_str(label);
    s.append(value);
    s
}

/// What a playlist summary holds, as mathematical values.
pub struct SummaryView {
    pub name: Seq<char>,
    pub id: Seq<char>,
    pub collaborative: bool,
    pub owner_name: Option<Seq<char>>,
    pub public: Option<bool>,
}

impl SummaryView {
    /// The lines of the summary's information popup.
    pub open spec fn info_lines(self) -> Seq<Seq<char>> {
        let owner = match self.owner_name {
            Some(o) => o,
            None => "<unknown>"@,
        };
        let lines = seq![
            "Name: "@ + self.name,
            "Owner: "@ + owner,
            "Collaborative: "@ + bool_text(self.collaborative),
        ];
        match self.public {
            Some(p) => lines.push("Public: "@ + yes_no(p)),
            None => lines,
        }
    }
}

/// One playlist as the list of all playlists shows it.
#[derive(Debug)]
pub struct PlaylistSummary {
    name: String,
    id: String,
    collaborative: bool,
    owner_name: Option<String>,
    public: Option<bool>,
}

impl View for PlaylistSummary {
    type V = SummaryView;

    closed spec fn view(&self) -> SummaryView {
        SummaryView {
            name: self.name@,
            id: self.id@,
            collaborative: self.collaborative,
            owner_name: match self.owner_name {
                Some(o) => Some(o@),
                None => None,
            },
            public: self.public,
        }
    }
}

impl PlaylistSummary {
    pub fn new(
        name: String,
        id: String,
        collaborative: bool,
        owner_name: Option<String>,
        public: Option<bool>,
    ) -> (r: PlaylistSummary)
        ensures
            r@ == (SummaryView {
                name: name@,
                id: id@,
                collaborative,
                owner_name: match owner_name {
                    Some(o) => Some(o@),
                    None => None,
                },
                public,
            }),
    {
        PlaylistSummary { name, id, collaborative, owner_name, public }
    }

    pub fn name(&self) -> (r: &str)
        ensures
            r@ == self@.name,
    {
        self.name.as_str()
    }

    pub fn id(&self) -> (r: &str)
        ensures
            r@ == self@.id,
    {
        self.id.as_str()
    }

    pub fn collaborative(&self) -> (r: bool)
        ensures
            r == self@.collaborative,
    {
        self.collaborative
    }

    pub fn owner_name(&self) -> (r: Option<&str>)
        ensures
            match self@.owner_name {
                Some(o) => r matches Some(s) && s@ == o,
                None => r is None,
            },
    {
        match &self.owner_name {
            Some(o) => Some(o.as_str()),
            None => None,
        }
    }

    pub fn is_public(&self) -> (r: Option<bool>)
        ensures
            r == self@.public,
    {
        self.public
    }

    /// A popup with the summary's name, owner, whether it is collaborative
    /// and, when known, whether it is public, for a terminal of `cols`
    /// columns and `rows` rows.
    pub fn info_popup(&self, cols: u16, rows: u16) -> (r: Popup)
        ensures
            texts(r.lines@) == self@.info_lines(),
            r.x == cols / 4,
            r.y == rows / 4,
            r.width == 2 * (cols / 4),
    {
        let mut lines: Vec<String> = Vec::new();
        lines.push(labelled("Name: ", self.name.as_str()));
        let owner = match &self.owner_name {
            Some(o) => labelled("Owner: ", o.as_str()),
            None => labelled("Owner: ", "<unknown>"),
        };
        lines.push(owner);
        let collaborative = bool_string(self.collaborative);
        lines.push(labelled("Collaborative: ", collaborative.as_str()));
        match self.public {
            Some(p) => {
                let public_msg = if p {
                    "yes"
                } else {
                    "no"
                };
                lines.push(labelled("Public: ", public_msg));
            },
            None => {},
        }
        assert(texts(lines@) =~= self@.info_lines());
        Popup::new(lines, cols, rows)
    }
}

/// A track: its title, its artists' names and its URI.
#[derive(Debug)]
pub struct Track {
    pub name: String,
    pub artists: Vec<String>,
    pub uri: String,
}

impl Track {
    pub fn new(name: String, artists: Vec<String>, uri: String) -> (r: Track)
        ensures
            r.name == name,
            r.artists == artists,
            r.uri == uri,
    {
        Track { name, artists, uri }
    }

    /// The lines of the track's information popup.
    pub open spec fn info_lines(&self) -> Seq<Seq<char>> {
        seq!["Title: "@ + self.name@, "Artist: "@ + joined(texts(self.artists@), ", "@)]
    }

    /// A popup with the title and the artists, separated by commas, for a
    /// terminal of `cols` columns and `rows` rows.
    pub fn info_popup(&self, cols: u16, rows: u16) -> (r: Popup)
        ensures
            texts(r.lines@) == self.info_lines(),
            r.x == cols / 4,
            r.y == rows / 4,
            r.width == 2 * (cols / 4),
    {
        let artist = join_with(&self.artists, ", ");
        let mut lines: Vec<String> = Vec::new();
        lines.push(labelled("Title: ", self.name.as_str()));
        lines.push(labelled("Artist: ", artist.as_str()));
        assert(texts(lines@) =~= self.info_lines());
        Popup::new(lines, cols, rows)
    }
}

/// An entry of a playlist: a track, or nothing when the track is not
/// available.
#[derive(Debug)]
pub struct PlaylistTrack {
    pub is_local: bool,
    pub track: Option<Track>,
}

impl PlaylistTrack {
    pub fn new(is_local: bool, track: Option<Track>) -> (r: PlaylistTrack)
        ensures
            r.is_local == is_local,
            r.track == track,
    {
        PlaylistTrack { is_local, track }
    }
}

/// What a playlist holds, as mathematical values.
pub struct PlaylistView {
    pub id: Seq<char>,
    pub name: Seq<char>,
    pub tracks: PagedView<PlaylistTrack>,
}

/// A playlist and the pages of its entries fetched so far.
#[derive(Debug)]
pub struct Playlist {
    id: String,
    name: String,
    tracks: Paged<PlaylistTrack>,
}

impl View for Playlist {
    type V = PlaylistView;

    closed spec fn view(&self) -> PlaylistView {
        PlaylistView { id: self.id@, name: self.name@, tracks: self.tracks@ }
    }
}

impl Playlist {
    /// A playlist as one request returns it: its first page of entries,
    /// and the token of the page after it.
    pub fn new(id: String, name: String, items: Vec<PlaylistTrack>, next: Option<String>) -> (r: Playlist)
        ensures
            r@.id == id@,
            r@.tracks.wf(),
            r@.tracks.page_id == PageId::Playlist(id),
            r@.name == name@,
            r@.tracks.items == items@,
            r@.tracks.index == 1,
            !r@.tracks.loading,
            match next {
                Some(uri) => r@.tracks.next == Some(NextPage { index: 1, uri }),
                None => r@.tracks.next is None,
            },
    {
        let tracks = Paged::from(items, next, PageId::Playlist(id.clone()));
        Playlist { id, name, tracks }
    }

    pub fn id(&self) -> (r: &str)
        ensures
            r@ == self@.id,
    {
        self.id.as_str()
    }

    pub fn name(&self) -> (r: &str)
        ensures
            r@ == self@.name,
    {
        self.name.as_str()
    }

    pub fn items(&self) -> (r: &Vec<PlaylistTrack>)
        ensures
            r@ == self@.tracks.items,
    {
        self.tracks.items()
    }

    pub fn tracks(&self) -> (r: &Paged<PlaylistTrack>)
        ensures
            r@ == self@.tracks,
    {
        &self.tracks
    }

    /// The entries, to be changed in place; id and name stay.
    pub fn tracks_mut(&mut self) -> (r: &mut Paged<PlaylistTrack>)
        ensures
            r@ == old(self)@.tracks,
            final(self)@ == (PlaylistView { tracks: final(r)@, ..old(self)@ }),
    {
        &mut self.tracks
    }
}

} // verus!
