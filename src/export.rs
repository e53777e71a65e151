use vstd::prelude::*;

use itertools::Itertools;

use crate::plex::{Playlist, PlaylistOverview, Track, TrackView};
use crate::sync::track_views;

verus! {

/// The digits of lower-case hexadecimal.
pub const HEX_DIGITS: &'static str = "0123456789abcdef";

/// Start of the address of a playlist's track listing, before its id.
pub const PLAYLISTS_PATH: &'static str = "/playlists/";

/// End of the address of a playlist's track listing, after its id.
pub const TRACKS_PATH: &'static str = "/tracks";

/// First line of a playlist's CSV export.
pub const CSV_HEADER: &'static str = "artist;album;title";

/// Separates the fields of a CSV line.
pub const CSV_SEPARATOR: &'static str = ";";

/// Ends each line but the last of a CSV export.
pub const LINE_BREAK: &'static str = "\n";

/// The MD5 digest of the UTF-8 encoding of a text.
pub uninterp spec fn md5_digest_of(data: Seq<char>) -> Seq<u8>;

/// Relies on md5::compute: the digest of the text's bytes, sixteen bytes long.
#[verifier::external_body]
fn md5_digest(data: &str) -> (r: Vec<u8>)
    ensures
        r@ == md5_digest_of(data@),
        r@.len() == 16,
{
    md5::compute(data.as_bytes()).0.to_vec()
}

/// Relies on itertools::Itertools::exactly_one: the only item of a sequence
/// that has exactly one, and none otherwise.
#[verifier::external_body]
fn exactly_one(items: Vec<usize>) -> (r: Option<usize>)
    ensures
        r == (if items@.len() == 1 {
            Some(items@[0])
        } else {
            None
        }),
{
    items.into_iter().exactly_one().ok()
}

/// The hexadecimal digit of a value below sixteen.
pub open spec fn hex_digit(d: int) -> char {
    HEX_DIGITS@[d]
}

/// Lower-case hexadecimal of bytes: two digits each, the high one first.
pub open spec fn hex_of(bytes: Seq<u8>) -> Seq<char>
    decreases bytes.len(),
{
    if bytes.len() == 0 {
        Seq::empty()
    } else {
        hex_of(bytes.drop_last()) + seq![
            hex_digit(bytes.last() as int / 16),
            hex_digit(bytes.last() as int % 16),
        ]
    }
}

/// The id of a playlist with the title `title`: the MD5 digest of the title, in hexadecimal.
pub open spec fn playlist_id_of(title: Seq<char>) -> Seq<char> {
    hex_of(md5_digest_of(title))
}

/// The positions at which `id` occurs in `ids`, in increasing order.
pub open spec fn positions_of(ids: Seq<Seq<char>>, id: Seq<char>) -> Seq<int>
    decreases ids.len(),
{
    if ids.len() == 0 {
        Seq::empty()
    } else if ids.last() == id {
        positions_of(ids.drop_last(), id).push(ids.len() - 1)
    } else {
        positions_of(ids.drop_last(), id)
    }
}

/// The position of `id` in `ids` when it occurs exactly once.
pub open spec fn unique_position(ids: Seq<Seq<char>>, id: Seq<char>) -> Option<int> {
    let found = positions_of(ids, id);
    if found.len() == 1 {
        Some(found[0])
    } else {
        None
    }
}

/// The ids of a list of playlists.
pub open spec fn playlist_ids(playlists: Seq<PlaylistOverview>) -> Seq<Seq<char>> {
    playlists.map_values(|p: PlaylistOverview| playlist_id_of(p.title@))
}

/// A track's CSV line: "{artist};{album};{title}".
pub open spec fn csv_line_of(t: TrackView) -> Seq<char> {
    t.artist + CSV_SEPARATOR@ + t.album + CSV_SEPARATOR@ + t.title
}

/// The CSV lines of tracks, joined by line breaks.
pub open spec fn csv_lines(tracks: Seq<TrackView>) -> Seq<char>
    decreases tracks.len(),
{
    if tracks.len() == 0 {
        Seq::empty()
    } else if tracks.len() == 1 {
        csv_line_of(tracks[0])
    } else {
        csv_lines(tracks.drop_last()) + LINE_BREAK@ + csv_line_of(tracks.last())
    }
}

/// Lower-case hexadecimal of `bytes`, two digits per byte.
pub fn to_lower_hex(bytes: &Vec<u8>) -> (r: String)
    ensures
        r@ == hex_of(bytes@),
{
    proof {
        reveal_strlit("0123456789abcdef");
    }
    let mut r = String::new();
    let mut i: usize = 0;
    assert(bytes@.take(0) =~= Seq::<u8>::empty());
    while i < bytes.len()
        invariant
            i <= bytes@.len(),
            HEX_DIGITS@.len() == 16,
            r@ == hex_of(bytes@.take(i as int)),
        decreases bytes@.len() - i,
    {
        let b = bytes[i];
        let high = (b / 16) as usize;
        let low = (b % 16) as usize;
        r.append(HEX_DIGITS.substring_char(high, high + 1));
        r.append(HEX_DIGITS.substring_char(low, low + 1));
        assert(bytes@.take(i + 1).drop_last() =~= bytes@.take(i as int));
        assert(r@ =~= hex_of(bytes@.take(i + 1)));
        i = i + 1;
    }
    assert(bytes@.take(bytes@.len() as int) =~= bytes@);
    r
}

/// The id under which a playlist with the title `title` is published.
pub fn playlist_id(title: &str) -> (r: String)
    ensures
        r@ == playlist_id_of(title@),
{
    let digest = md5_digest(title);
    to_lower_hex(&digest)
}

/// The address of the track listing of the playlist with the id `id`.
pub fn tracks_link(id: &str) -> (r: String)
    ensures
        r@ == PLAYLISTS_PATH@ + id@ + TRACKS_PATH@,
{
    let mut r = String::from_str(PLAYLISTS_PATH);
    r.append(id);
    r.append(TRACKS_PATH);
    r
}

/// The position of `id` among `ids`, when exactly one entry has it; none when
/// no entry or several have it.
pub fn select_by_id(ids: &Vec<String>, id: &String) -> (r: Option<usize>)
    ensures
        match unique_position(ids@.map_values(|s: String| s@), id@) {
            Some(k) => r == Some(k as usize),
            None => r is None,
        },
{
    let ghost views = ids@.map_values(|s: String| s@);
    let mut found: Vec<usize> = Vec::new();
    let mut i: usize = 0;
    assert(views.take(0) =~= Seq::<Seq<char>>::empty());
    while i < ids.len()
        invariant
            i <= ids@.len(),
            views == ids@.map_values(|s: String| s@),
            found@.len() == positions_of(views.take(i as int), id@).len(),
            forall|k: int|
                0 <= k < found@.len() ==> found@[k] as int == #[trigger] positions_of(
                    views.take(i as int),
                    id@,
                )[k],
        decreases ids@.len() - i,
    {
        assert(views.take(i + 1).drop_last() =~= views.take(i as int));
        if ids[i] == *id {
            found.push(i);
        }
        i = i + 1;
    }
    assert(views.take(ids@.len() as int) =~= views);
    exactly_one(found)
}

/// The position of the playlist whose id is `id`, when exactly one has it.
pub fn find_playlist(playlists: &Vec<PlaylistOverview>, id: &String) -> (r: Option<usize>)
    ensures
        match unique_position(playlist_ids(playlists@), id@) {
            Some(k) => r == Some(k as usize),
            None => r is None,
        },
{
    let mut ids: Vec<String> = Vec::new();
    let mut i: usize = 0;
    while i < playlists.len()
        invariant
            i <= playlists@.len(),
            ids@.len() == i,
            forall|k: int|
                0 <= k < i ==> (#[trigger] ids@[k])@ == playlist_id_of(playlists@[k].title@),
        decreases playlists@.len() - i,
    {
        ids.push(playlist_id(playlists[i].title.as_str()));
        i = i + 1;
    }
    assert(ids@.map_values(|s: String| s@) =~= playlist_ids(playlists@));
    select_by_id(&ids, id)
}

/// A track's CSV line: "{artist};{album};{title}".
pub fn csv_line(track: &Track) -> (r: String)
    ensures
        r@ == csv_line_of(track@),
{
    let mut r = track.artist.clone();
    r.append(CSV_SEPARATOR);
    r.append(track.album.as_str());
    r.append(CSV_SEPARATOR);
    r.append(track.title.as_str());
    r
}

/// The CSV export of a playlist: the header, then one line per track.
pub fn tracks_csv(playlist: &Playlist) -> (r: String)
    ensures
        r@ == CSV_HEADER@ + LINE_BREAK@ + csv_lines(track_views(playlist.tracks@)),
{
    let ghost views = track_views(playlist.tracks@);
    let mut lines = String::new();
    let mut i: usize = 0;
    assert(views.take(0) =~= Seq::<TrackView>::empty());
    while i < playlist.tracks.len()
        invariant
            i <= playlist.tracks@.len(),
            views == track_views(playlist.tracks@),
            lines@ == csv_lines(views.take(i as int)),
        decreases playlist.tracks@.len() - i,
    {
        let line = csv_line(&playlist.tracks[i]);
        assert(views.take(i + 1).drop_last() =~= views.take(i as int));
        if i > 0 {
            lines.append(LINE_BREAK);
        }
        lines.append(line.as_str());
        assert(lines@ =~= csv_lines(views.take(i + 1)));
        i = i + 1;
    }
    assert(views.take(playlist.tracks@.len() as int) =~= views);
    let mut r = String::from_str(CSV_HEADER);
    r.append(LINE_BREAK);
    r.append(lines.as_str());
    r
}

/// What the web facade publishes of a track.
#[derive(Debug, Clone)]
pub struct TrackDto {
    pub title: String,
    pub album: String,
    pub artist: String,
}

impl From<Track> for TrackDto {
    fn from(t: Track) -> (r: TrackDto) {
        TrackDto { title: t.title, album: t.album, artist: t.artist }
    }
}

impl vstd::std_specs::convert::FromSpecImpl<Track> for TrackDto {
    open spec fn obeys_from_spec() -> bool {
        true
    }

    open spec fn from_spec(t: Track) -> TrackDto {
        TrackDto { title: t.title, album: t.album, artist: t.artist }
    }
}

} // verus!
