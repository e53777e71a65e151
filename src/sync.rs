use vstd::prelude::*;

use crate::config::PlexConfig;
use crate::plex::{
    download_url_of, inferred_file_name, DecodeError, PlaylistOverview, Track, TrackView,
};

verus! {

broadcast use vstd::seq_lib::group_seq_properties;

/// Separates a directory from the file names inside it.
pub const PATH_SEPARATOR: &'static str = "/";

/// What a sync run works on: the destination directory, the playlist and the server.
#[derive(Debug, Clone)]
pub struct SyncOptions {
    pub path: String,
    pub playlist_ref: PlaylistOverview,
    pub config: PlexConfig,
}

/// One planned download: where the media comes from, where it goes, and its file name.
#[derive(Debug, Clone)]
pub struct TrackDownload {
    pub url: String,
    pub path: String,
    pub file_name: String,
}

/// A planned download as plain sequences of characters.
pub struct TrackDownloadView {
    pub url: Seq<char>,
    pub path: Seq<char>,
    pub file_name: Seq<char>,
}

impl View for TrackDownload {
    type V = TrackDownloadView;

    open spec fn view(&self) -> TrackDownloadView {
        TrackDownloadView { url: self.url@, path: self.path@, file_name: self.file_name@ }
    }
}

/// The views of a sequence of tracks.
pub open spec fn track_views(tracks: Seq<Track>) -> Seq<TrackView> {
    tracks.map_values(|t: Track| t@)
}

/// The views of a sequence of planned downloads.
pub open spec fn download_views(plan: Seq<TrackDownload>) -> Seq<TrackDownloadView> {
    plan.map_values(|d: TrackDownload| d@)
}

/// The characters of each of a list of file names.
pub open spec fn names_of(files: Seq<String>) -> Seq<Seq<char>> {
    files.map_values(|s: String| s@)
}

/// Every track has an inferable file name.
pub open spec fn all_named(tracks: Seq<TrackView>) -> bool {
    forall|i: int| 0 <= i < tracks.len() ==> (#[trigger] inferred_file_name(tracks[i])) is Some
}

/// `dir` joined with a relative file name: a separator is put between them
/// unless `dir` is empty or already ends with one.
pub open spec fn join_path_spec(dir: Seq<char>, name: Seq<char>) -> Seq<char> {
    if dir.len() == 0 || dir.last() == '/' {
        dir + name
    } else {
        dir + PATH_SEPARATOR@ + name
    }
}

/// A track whose file name is not among the existing ones.
pub open spec fn is_missing(t: TrackView, existing: Seq<Seq<char>>) -> bool {
    !existing.contains(inferred_file_name(t)->0)
}

/// The tracks, in their order, whose file names are not among the existing ones.
pub open spec fn missing_tracks(tracks: Seq<TrackView>, existing: Seq<Seq<char>>) -> Seq<TrackView> {
    tracks.filter(|t: TrackView| is_missing(t, existing))
}

/// The planned download of a track into the directory `dir`.
pub open spec fn plan_item(t: TrackView, dir: Seq<char>, url: Seq<char>, token: Seq<char>) -> TrackDownloadView {
    let name = inferred_file_name(t)->0;
    TrackDownloadView {
        url: download_url_of(t, url, token),
        path: join_path_spec(dir, name),
        file_name: name,
    }
}

/// The sync plan: one download for each track whose file name is not among the
/// existing ones, in the order of the tracks.
pub open spec fn sync_plan(
    tracks: Seq<TrackView>,
    existing: Seq<Seq<char>>,
    dir: Seq<char>,
    url: Seq<char>,
    token: Seq<char>,
) -> Seq<TrackDownloadView> {
    missing_tracks(tracks, existing).map_values(|t: TrackView| plan_item(t, dir, url, token))
}

/// The file names that a sync plan writes.
pub open spec fn planned_names(plan: Seq<TrackDownloadView>) -> Seq<Seq<char>> {
    plan.map_values(|d: TrackDownloadView| d.file_name)
}

/// The positions of the tracks whose file names are not among the existing
/// ones, in increasing order.
pub open spec fn missing_positions(tracks: Seq<TrackView>, existing: Seq<Seq<char>>) -> Seq<int>
    decreases tracks.len(),
{
    if tracks.len() == 0 {
        Seq::empty()
    } else if is_missing(tracks.last(), existing) {
        missing_positions(tracks.drop_last(), existing).push(tracks.len() - 1)
    } else {
        missing_positions(tracks.drop_last(), existing)
    }
}

/// The plan keeps the playlist's order: its k-th item is the download of the
/// k-th track whose file is missing, these tracks' positions increase, and a
/// track is planned exactly when its file is missing.
pub proof fn lemma_plan_keeps_track_order(
    tracks: Seq<TrackView>,
    existing: Seq<Seq<char>>,
    dir: Seq<char>,
    url: Seq<char>,
    token: Seq<char>,
)
    ensures
        sync_plan(tracks, existing, dir, url, token).len() == missing_positions(tracks, existing).len(),
        forall|k: int|
            0 <= k < missing_positions(tracks, existing).len() ==> {
                let i = #[trigger] missing_positions(tracks, existing)[k];
                &&& 0 <= i < tracks.len()
                &&& sync_plan(tracks, existing, dir, url, token)[k] == plan_item(
                    tracks[i],
                    dir,
                    url,
                    token,
                )
            },
        forall|k: int, l: int|
            0 <= k < l < missing_positions(tracks, existing).len() ==> missing_positions(
                tracks,
                existing,
            )[k] < missing_positions(tracks, existing)[l],
        forall|i: int|
            0 <= i < tracks.len() ==> (is_missing(tracks[i], existing) <==> missing_positions(
                tracks,
                existing,
            ).contains(i)),
    decreases tracks.len(),
{
    reveal(Seq::filter);
    if tracks.len() > 0 {
        let rest = tracks.drop_last();
        lemma_plan_keeps_track_order(rest, existing, dir, url, token);
        let pos = missing_positions(tracks, existing);
        let rest_pos = missing_positions(rest, existing);
        let plan = sync_plan(tracks, existing, dir, url, token);
        let rest_plan = sync_plan(rest, existing, dir, url, token);
        let pred = |t: TrackView| is_missing(t, existing);
        assert(tracks.filter(pred) == if pred(tracks.last()) {
            rest.filter(pred).push(tracks.last())
        } else {
            rest.filter(pred)
        });
        assert forall|k: int| 0 <= k < rest_pos.len() implies rest_pos[k] < tracks.len() - 1 by {
            assert(0 <= rest_pos[k] < rest.len());
        }
        if is_missing(tracks.last(), existing) {
            assert(plan =~= rest_plan.push(plan_item(tracks.last(), dir, url, token)));
            assert forall|i: int|
                0 <= i < tracks.len() implies (is_missing(tracks[i], existing) <==> pos.contains(i)) by {
                if i < tracks.len() - 1 {
                    assert(tracks[i] == rest[i]);
                    if rest_pos.contains(i) {
                        let k = choose|k: int| 0 <= k < rest_pos.len() && rest_pos[k] == i;
                        assert(pos[k] == i);
                    }
                    if pos.contains(i) {
                        let k = choose|k: int| 0 <= k < pos.len() && pos[k] == i;
                        assert(k < rest_pos.len());
                        assert(rest_pos[k] == i);
                    }
                } else {
                    assert(pos[pos.len() - 1] == i);
                }
            }
        } else {
            assert(plan =~= rest_plan);
            assert forall|i: int|
                0 <= i < tracks.len() implies (is_missing(tracks[i], existing) <==> pos.contains(i)) by {
                if i < tracks.len() - 1 {
                    assert(tracks[i] == rest[i]);
                } else {
                    if pos.contains(i) {
                        let k = choose|k: int| 0 <= k < pos.len() && pos[k] == i;
                        assert(rest_pos[k] < tracks.len() - 1);
                    }
                }
            }
        }
        assert forall|k: int| 0 <= k < pos.len() implies {
            let i = #[trigger] pos[k];
            &&& 0 <= i < tracks.len()
            &&& plan[k] == plan_item(tracks[i], dir, url, token)
        } by {
            if k < rest_pos.len() {
                assert(pos[k] == rest_pos[k]);
                assert(tracks[rest_pos[k]] == rest[rest_pos[k]]);
            }
        }
    }
}

/// A destination that already holds a file of each track's name needs no download.
pub proof fn lemma_plan_empty_when_all_present(
    tracks: Seq<TrackView>,
    existing: Seq<Seq<char>>,
    dir: Seq<char>,
    url: Seq<char>,
    token: Seq<char>,
)
    requires
        forall|i: int|
            0 <= i < tracks.len() ==> existing.contains(
                (#[trigger] inferred_file_name(tracks[i]))->0,
            ),
    ensures
        sync_plan(tracks, existing, dir, url, token).len() == 0,
{
    let pred = |t: TrackView| is_missing(t, existing);
    assert(tracks.all(|t: TrackView| !pred(t))) by {
        assert forall|i: int| 0 <= i < tracks.len() implies !pred(tracks[i]) by {
            assert(existing.contains(inferred_file_name(tracks[i])->0));
        }
    }
    tracks.lemma_all_neg_filter_empty(pred);
}

/// Syncing is idempotent: once the files that a plan names have been written
/// beside the existing ones, planning the same playlist again gives no download.
pub proof fn lemma_sync_idempotent(
    tracks: Seq<TrackView>,
    existing: Seq<Seq<char>>,
    dir: Seq<char>,
    url: Seq<char>,
    token: Seq<char>,
)
    ensures
        sync_plan(
            tracks,
            existing + planned_names(sync_plan(tracks, existing, dir, url, token)),
            dir,
            url,
            token,
        ).len() == 0,
{
    broadcast use vstd::seq_lib::group_filter_ensures;

    let pred = |t: TrackView| is_missing(t, existing);
    let missing = missing_tracks(tracks, existing);
    let names = planned_names(sync_plan(tracks, existing, dir, url, token));
    let after = existing + names;
    assert forall|i: int| 0 <= i < tracks.len() implies after.contains(
        (#[trigger] inferred_file_name(tracks[i]))->0,
    ) by {
        let name = inferred_file_name(tracks[i])->0;
        if existing.contains(name) {
            let k = choose|k: int| 0 <= k < existing.len() && existing[k] == name;
            assert(after[k] == name);
        } else {
            assert(pred(tracks[i]));
            assert(missing.contains(tracks[i]));
            let k = choose|k: int| 0 <= k < missing.len() && missing[k] == tracks[i];
            assert(names[k] == name);
            assert(after[existing.len() + k] == name);
        }
    }
    lemma_plan_empty_when_all_present(tracks, after, dir, url, token);
}

/// The names of the files already in the destination. `None` stands for a
/// directory that cannot be listed, most often one that does not exist yet:
/// nothing has been downloaded there, which is no error.
pub fn existing_names(listing: Option<Vec<String>>) -> (r: Vec<String>)
    ensures
        match listing {
            Some(names) => r@ == names@,
            None => r@.len() == 0,
        },
{
    match listing {
        Some(names) => names,
        None => Vec::new(),
    }
}

/// Whether `name` is one of `names`.
pub fn contains_name(names: &Vec<String>, name: &String) -> (r: bool)
    ensures
        r == names_of(names@).contains(name@),
{
    let mut j: usize = 0;
    while j < names.len()
        invariant
            j <= names@.len(),
            forall|k: int| 0 <= k < j ==> (#[trigger] names@[k])@ != name@,
        decreases names@.len() - j,
    {
        if names[j] == *name {
            assert(names_of(names@)[j as int] == name@);
            return true;
        }
        j = j + 1;
    }
    assert(!names_of(names@).contains(name@)) by {
        if names_of(names@).contains(name@) {
            let k = choose|k: int| 0 <= k < names_of(names@).len() && names_of(names@)[k] == name@;
            assert(names@[k]@ == name@);
        }
    }
    false
}

/// The path of the file `name` inside the directory `dir`.
pub fn join_path(dir: &String, name: &String) -> (r: String)
    ensures
        r@ == join_path_spec(dir@, name@),
{
    let d = dir.as_str();
    let n = d.unicode_len();
    let mut r = dir.clone();
    if n > 0 && d.get_char(n - 1) != '/' {
        r.append(PATH_SEPARATOR);
    }
    r.append(name.as_str());
    r
}

/// Plans a sync run: for each track in order, its file name is inferred, and a
/// download is planned when no existing file has that name. Two tracks with the
/// same name are both planned; only the existing files are checked. Fails when
/// a track's media locator gives no file extension.
pub fn prepare_playlist_sync(
    options: &SyncOptions,
    tracks: &Vec<Track>,
    existing_files: &Vec<String>,
) -> (r: Result<Vec<TrackDownload>, DecodeError>)
    ensures
        match r {
            Ok(plan) => {
                &&& all_named(track_views(tracks@))
                &&& download_views(plan@) == sync_plan(
                    track_views(tracks@),
                    names_of(existing_files@),
                    options.path@,
                    options.config.url@,
                    options.config.token@,
                )
            },
            Err(e) => !all_named(track_views(tracks@)) && e == DecodeError::MissingExtension,
        },
{
    let ghost views = track_views(tracks@);
    let ghost existing = names_of(existing_files@);
    let ghost dir = options.path@;
    let ghost url = options.config.url@;
    let ghost token = options.config.token@;
    let mut plan: Vec<TrackDownload> = Vec::new();
    let mut i: usize = 0;
    assert(views.take(0) =~= Seq::<TrackView>::empty());
    proof {
        reveal(Seq::filter);
    }
    assert(download_views(plan@) =~= sync_plan(views.take(0), existing, dir, url, token));
    while i < tracks.len()
        invariant
            i <= tracks@.len(),
            views == track_views(tracks@),
            existing == names_of(existing_files@),
            dir == options.path@,
            url == options.config.url@,
            token == options.config.token@,
            all_named(views.take(i as int)),
            download_views(plan@) == sync_plan(views.take(i as int), existing, dir, url, token),
        decreases tracks@.len() - i,
    {
        let track = &tracks[i];
        let name = match track.infer_file_name() {
            Ok(name) => name,
            Err(e) => {
                assert(inferred_file_name(views[i as int]) is None);
                return Err(e);
            },
        };
        let ghost prev = views.take(i as int);
        let ghost is_missing_pred = |t: TrackView| is_missing(t, existing);
        assert(views.take(i + 1) =~= prev.push(views[i as int]));
        proof {
            prev.lemma_filter_push(views[i as int], is_missing_pred);
        }
        if !contains_name(existing_files, &name) {
            let url_of_track = track.get_download_url(&options.config);
            let path = join_path(&options.path, &name);
            let item = TrackDownload { url: url_of_track, path, file_name: name };
            let ghost before = plan@;
            plan.push(item);
            assert(download_views(plan@) =~= download_views(before).push(item@));
            assert(sync_plan(views.take(i + 1), existing, dir, url, token) =~= sync_plan(
                prev,
                existing,
                dir,
                url,
                token,
            ).push(plan_item(views[i as int], dir, url, token)));
        } else {
            assert(sync_plan(views.take(i + 1), existing, dir, url, token) =~= sync_plan(
                prev,
                existing,
                dir,
                url,
                token,
            ));
        }
        i = i + 1;
    }
    assert(views.take(tracks@.len() as int) =~= views);
    Ok(plan)
}

} // verus!
