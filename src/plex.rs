use vstd::prelude::*;

use crate::config::{static_query_params_spec, PlexConfig};

verus! {

/// Separates the server address plus resource path from the query.
pub const QUERY_START: &'static str = "?";

/// Stands between artist and title in a track's file name.
pub const NAME_SEPARATOR: &'static str = " - ";

/// File names are sanitised by the rules of every common file system, Windows
/// included, so that a track gets the same name on every machine.
pub const PORTABLE_FILE_NAMES: bool = true;

/// A `Part` element of the server's playlist document: one retrievable segment.
#[derive(Debug, Clone)]
pub struct PartElement {
    pub key: String,
}

/// A `Media` element: one rendition of a track, with its parts.
#[derive(Debug, Clone)]
pub struct MediaElement {
    pub parts: Vec<PartElement>,
}

/// A `Track` element as the server's document holds it.
#[derive(Debug, Clone)]
pub struct TrackElement {
    pub title: String,
    pub album: String,
    pub artist: String,
    pub media: Vec<MediaElement>,
}

/// The detail document of one playlist.
#[derive(Debug, Clone)]
pub struct PlaylistElement {
    pub title: String,
    pub tracks: Vec<TrackElement>,
}

/// Why a server document could not be turned into the library's values.
#[derive(Debug, Clone, PartialEq, Eq)]
pub enum DecodeError {
    /// The document is not well formed or lacks a required field.
    Malformed(String),
    /// A track has not exactly one rendition, or its rendition not exactly one part.
    InvariantViolation,
    /// A media locator holds no `.`, so no file extension can be inferred.
    MissingExtension,
}

/// A track with its single media locator, the server path of its one part.
#[derive(Debug, Clone)]
pub struct Track {
    pub title: String,
    pub album: String,
    pub artist: String,
    pub media_locator: String,
}

/// What a track is, as plain sequences of characters.
pub struct TrackView {
    pub title: Seq<char>,
    pub album: Seq<char>,
    pub artist: Seq<char>,
    pub media_locator: Seq<char>,
}

impl View for Track {
    type V = TrackView;

    open spec fn view(&self) -> TrackView {
        TrackView {
            title: self.title@,
            album: self.album@,
            artist: self.artist@,
            media_locator: self.media_locator@,
        }
    }
}

/// A playlist with its tracks in the server's order.
#[derive(Debug, Clone)]
pub struct Playlist {
    pub title: String,
    pub tracks: Vec<Track>,
}

/// A listing entry: identifies a playlist without its tracks.
#[derive(Debug, Clone)]
pub struct PlaylistOverview {
    pub key: String,
    pub title: String,
    pub summary: String,
}

/// The key of a track element's single part, when it has exactly one
/// rendition with exactly one part.
pub open spec fn single_part_key(e: TrackElement) -> Option<Seq<char>> {
    if e.media@.len() == 1 && e.media@[0].parts@.len() == 1 {
        Some(e.media@[0].parts@[0].key@)
    } else {
        None
    }
}

/// The track that a well-formed track element describes.
pub open spec fn track_of_element(e: TrackElement) -> TrackView {
    TrackView {
        title: e.title@,
        album: e.album@,
        artist: e.artist@,
        media_locator: single_part_key(e)->0,
    }
}

/// Every track element of a playlist document has exactly one part.
pub open spec fn all_single_part(tracks: Seq<TrackElement>) -> bool {
    forall|i: int| 0 <= i < tracks.len() ==> (#[trigger] single_part_key(tracks[i])) is Some
}

/// Position of the last `.` in `s`.
pub open spec fn last_dot(s: Seq<char>) -> Option<int>
    decreases s.len(),
{
    if s.len() == 0 {
        None
    } else if s.last() == '.' {
        Some(s.len() - 1)
    } else {
        last_dot(s.drop_last())
    }
}

/// The file extension of a media locator: its suffix from the last `.` on.
pub open spec fn file_extension_of(locator: Seq<char>) -> Option<Seq<char>> {
    match last_dot(locator) {
        Some(i) => Some(locator.subrange(i, locator.len() as int)),
        None => None,
    }
}

/// A sanitised file name, as `sanitize_filename` makes it with its default
/// options but for the Windows rules, which `windows` switches on.
pub uninterp spec fn sanitized(name: Seq<char>, windows: bool) -> Seq<char>;

/// The local file name of a track: "{artist} - {title}{extension}", sanitised.
pub open spec fn inferred_file_name(t: TrackView) -> Option<Seq<char>> {
    match file_extension_of(t.media_locator) {
        Some(ext) => Some(
            sanitized(t.artist + NAME_SEPARATOR@ + t.title + ext, PORTABLE_FILE_NAMES),
        ),
        None => None,
    }
}

/// Address from which a track's media is downloaded.
pub open spec fn download_url_of(t: TrackView, url: Seq<char>, token: Seq<char>) -> Seq<char> {
    url + t.media_locator + QUERY_START@ + static_query_params_spec(token)
}

/// Relies on sanitize_filename::sanitize_with_options: the sanitised name depends
/// on the name and on the choice of the Windows rules alone.
#[verifier::external_body]
fn sanitize(name: &str, windows: bool) -> (r: String)
    ensures
        r@ == sanitized(name@, windows),
{
    sanitize_filename::sanitize_with_options(
        name,
        sanitize_filename::Options { windows, ..Default::default() },
    )
}

/// A track's file name is a function of its artist, title and media locator:
/// two tracks that agree on these get the same name, on every call.
pub proof fn lemma_file_name_determined(a: TrackView, b: TrackView)
    requires
        a.artist == b.artist,
        a.title == b.title,
        a.media_locator == b.media_locator,
    ensures
        inferred_file_name(a) == inferred_file_name(b),
{
}

/// Builds `a + b + c + d`.
pub(crate) fn concat4(a: &str, b: &str, c: &str, d: &str) -> (r: String)
    ensures
        r@ == a@ + b@ + c@ + d@,
{
    let mut r = String::from_str(a);
    r.append(b);
    r.append(c);
    r.append(d);
    r
}

impl Track {
    /// Address from which the track's media is downloaded from the server of `config`.
    pub fn get_download_url(&self, config: &PlexConfig) -> (r: String)
        ensures
            r@ == download_url_of(self@, config.url@, config.token@),
    {
        let parts_key = self.get_parts_key();
        let params = config.get_static_query_params();
        concat4(config.url.as_str(), parts_key.as_str(), QUERY_START, params.as_str())
    }

    /// The suffix of the media locator that starts at its last `.`.
    pub fn get_file_extension(&self) -> (r: Result<String, DecodeError>)
        ensures
            match r {
                Ok(ext) => file_extension_of(self.media_locator@) == Some(ext@),
                Err(e) => file_extension_of(self.media_locator@) is None
                    && e == DecodeError::MissingExtension,
            },
    {
        let locator = self.media_locator.as_str();
        let n = locator.unicode_len();
        let mut i: usize = n;
        assert(locator@.subrange(0, n as int) =~= locator@);
        while i > 0
            invariant
                i <= n == locator@.len(),
                locator@ == self.media_locator@,
                last_dot(locator@) == last_dot(locator@.subrange(0, i as int)),
            decreases i,
        {
            assert(locator@.subrange(0, i as int).drop_last() =~= locator@.subrange(0, i - 1));
            if locator.get_char(i - 1) == '.' {
                assert(last_dot(locator@.subrange(0, i as int)) == Some(i - 1));
                let ext = locator.substring_char(i - 1, n);
                return Ok(String::from_str(ext));
            }
            i = i - 1;
        }
        Err(DecodeError::MissingExtension)
    }

    /// The local file name of the track: "{artist} - {title}{extension}", sanitised.
    pub fn infer_file_name(&self) -> (r: Result<String, DecodeError>)
        ensures
            match r {
                Ok(name) => inferred_file_name(self@) == Some(name@),
                Err(e) => inferred_file_name(self@) is None && e == DecodeError::MissingExtension,
            },
    {
        let ext = self.get_file_extension()?;
        let raw = concat4(self.artist.as_str(), NAME_SEPARATOR, self.title.as_str(), ext.as_str());
        Ok(sanitize(raw.as_str(), PORTABLE_FILE_NAMES))
    }

    /// The server path of the track's single part.
    pub fn get_parts_key(&self) -> (r: String)
        ensures
            r@ == self.media_locator@,
    {
        self.media_locator.clone()
    }

    /// The track that a document's track element describes; fails when the element
    /// has not exactly one rendition with exactly one part.
    pub fn from_element(e: &TrackElement) -> (r: Result<Track, DecodeError>)
        ensures
            match r {
                Ok(t) => single_part_key(*e) is Some && t@ == track_of_element(*e),
                Err(err) => single_part_key(*e) is None && err == DecodeError::InvariantViolation,
            },
    {
        if e.media.len() != 1 || e.media[0].parts.len() != 1 {
            return Err(DecodeError::InvariantViolation);
        }
        Ok(Track {
            title: e.title.clone(),
            album: e.album.clone(),
            artist: e.artist.clone(),
            media_locator: e.media[0].parts[0].key.clone(),
        })
    }
}

impl Playlist {
    /// The playlist that a detail document describes. The whole document is
    /// refused when any of its tracks has not exactly one rendition with exactly
    /// one part: no track is skipped.
    pub fn from_element(e: &PlaylistElement) -> (r: Result<Playlist, DecodeError>)
        ensures
            match r {
                Ok(p) => {
                    &&& all_single_part(e.tracks@)
                    &&& p.title@ == e.title@
                    &&& p.tracks@.len() == e.tracks@.len()
                    &&& forall|i: int|
                        0 <= i < e.tracks@.len() ==> (#[trigger] p.tracks@[i])@ == track_of_element(
                            e.tracks@[i],
                        )
                },
                Err(err) => !all_single_part(e.tracks@) && err == DecodeError::InvariantViolation,
            },
    {
        let mut tracks: Vec<Track> = Vec::new();
        let mut i: usize = 0;
        while i < e.tracks.len()
            invariant
                i <= e.tracks@.len(),
                tracks@.len() == i,
                forall|j: int| 0 <= j < i ==> (#[trigger] single_part_key(e.tracks@[j])) is Some,
                forall|j: int|
                    0 <= j < i ==> (#[trigger] tracks@[j])@ == track_of_element(e.tracks@[j]),
            decreases e.tracks@.len() - i,
        {
            match Track::from_element(&e.tracks[i]) {
                Ok(t) => tracks.push(t),
                Err(err) => return Err(err),
            }
            i = i + 1;
        }
        Ok(Playlist { title: e.title.clone(), tracks })
    }
}

impl PlaylistOverview {
    /// Address of the playlist's detail document on the server of `config`.
    pub fn get_playlist_url(&self, config: &PlexConfig) -> (r: String)
        ensures
            r@ == config.url@ + self.key@ + QUERY_START@ + static_query_params_spec(config.token@),
    {
        let params = config.get_static_query_params();
        concat4(config.url.as_str(), self.key.as_str(), QUERY_START, params.as_str())
    }

    /// Name of the folder that the playlist is synchronised to by default: its
    /// title, sanitised.
    pub fn sync_folder_name(&self) -> (r: String)
        ensures
            r@ == sanitized(self.title@, PORTABLE_FILE_NAMES),
    {
        sanitize(self.title.as_str(), PORTABLE_FILE_NAMES)
    }
}

} // verus!
