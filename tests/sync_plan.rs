use chiubi_cloud::{
    contains_name, existing_names, join_path, prepare_playlist_sync, DecodeError,
    PlaylistOverview, PlexConfig, SyncOptions, Track, TrackDownload,
};

fn track(artist: &str, album: &str, title: &str, locator: &str) -> Track {
    Track {
        title: title.to_string(),
        album: album.to_string(),
        artist: artist.to_string(),
        media_locator: locator.to_string(),
    }
}

fn options(path: &str) -> SyncOptions {
    SyncOptions {
        path: path.to_string(),
        playlist_ref: PlaylistOverview {
            key: "/playlists/7/items".to_string(),
            title: "Road".to_string(),
            summary: String::new(),
        },
        config: PlexConfig { token: "tok".to_string(), url: "http://srv:32400".to_string() },
    }
}

fn two_tracks() -> Vec<Track> {
    vec![
        track("A", "X", "T1", "/library/parts/1/file.mp3"),
        track("B", "Y", "T2", "/library/parts/2/file.flac"),
    ]
}

fn names(plan: &[TrackDownload]) -> Vec<String> {
    plan.iter().map(|d| d.file_name.clone()).collect()
}

#[test]
fn empty_destination_plans_every_track_in_order() {
    let plan = prepare_playlist_sync(&options("/music/road"), &two_tracks(), &vec![]).unwrap();
    assert_eq!(names(&plan), vec!["A - T1.mp3".to_string(), "B - T2.flac".to_string()]);
    assert_eq!(plan[0].path, "/music/road/A - T1.mp3");
    assert_eq!(plan[1].path, "/music/road/B - T2.flac");
    assert!(plan[0].url.starts_with("http://srv:32400/library/parts/1/file.mp3?X-Plex-Token=tok&"));
    assert!(plan[1].url.starts_with("http://srv:32400/library/parts/2/file.flac?X-Plex-Token=tok&"));
}

#[test]
fn existing_file_of_first_track_leaves_only_second() {
    let existing = vec!["A - T1.mp3".to_string()];
    let plan = prepare_playlist_sync(&options("/music/road"), &two_tracks(), &existing).unwrap();
    assert_eq!(plan.len(), 1);
    assert_eq!(plan[0].file_name, "B - T2.flac");
}

#[test]
fn second_run_after_full_sync_plans_nothing() {
    let opts = options("/music/road");
    let first = prepare_playlist_sync(&opts, &two_tracks(), &vec!["cover.jpg".to_string()]).unwrap();
    let mut after = vec!["cover.jpg".to_string()];
    after.extend(names(&first));
    let second = prepare_playlist_sync(&opts, &two_tracks(), &after).unwrap();
    assert!(second.is_empty());
}

#[test]
fn order_kept_when_middle_track_exists() {
    let tracks = vec![
        track("C", "Z", "One", "/p/1.ogg"),
        track("D", "Z", "Two", "/p/2.ogg"),
        track("E", "Z", "Three", "/p/3.ogg"),
    ];
    let plan =
        prepare_playlist_sync(&options("out"), &tracks, &vec!["D - Two.ogg".to_string()]).unwrap();
    assert_eq!(names(&plan), vec!["C - One.ogg".to_string(), "E - Three.ogg".to_string()]);
}

#[test]
fn colliding_names_are_both_planned() {
    let tracks = vec![track("A", "X", "T1", "/p/1.mp3"), track("A", "Y", "T1", "/q/9.mp3")];
    let plan = prepare_playlist_sync(&options("out"), &tracks, &vec![]).unwrap();
    assert_eq!(names(&plan), vec!["A - T1.mp3".to_string(), "A - T1.mp3".to_string()]);
}

#[test]
fn track_without_extension_fails_the_plan() {
    let tracks = vec![track("A", "X", "T1", "/p/1.mp3"), track("B", "Y", "T2", "/p/noext")];
    let r = prepare_playlist_sync(&options("out"), &tracks, &vec![]);
    assert!(matches!(r, Err(DecodeError::MissingExtension)));
}

#[test]
fn unsafe_characters_are_removed_from_file_names() {
    let tracks = vec![track("AC/DC", "X", "What?", "/p/1.mp3")];
    let plan = prepare_playlist_sync(&options("out"), &tracks, &vec![]).unwrap();
    assert_eq!(plan[0].file_name, "ACDC - What.mp3");
    assert_eq!(plan[0].path, "out/ACDC - What.mp3");
}

#[test]
fn empty_playlist_plans_nothing() {
    let plan = prepare_playlist_sync(&options("out"), &vec![], &vec![]).unwrap();
    assert!(plan.is_empty());
}

#[test]
fn missing_directory_has_no_existing_names() {
    assert!(existing_names(None).is_empty());
    let listed = vec!["a.mp3".to_string(), "b.mp3".to_string()];
    assert_eq!(existing_names(Some(listed.clone())), listed);
}

#[test]
fn join_path_adds_one_separator() {
    let name = "n.mp3".to_string();
    assert_eq!(join_path(&"dir".to_string(), &name), "dir/n.mp3");
    assert_eq!(join_path(&"dir/".to_string(), &name), "dir/n.mp3");
    assert_eq!(join_path(&String::new(), &name), "n.mp3");
}

#[test]
fn contains_name_compares_whole_names() {
    let names = vec!["A - T1.mp3".to_string(), "b".to_string()];
    assert!(contains_name(&names, &"b".to_string()));
    assert!(!contains_name(&names, &"A - T1".to_string()));
    assert!(!contains_name(&vec![], &"b".to_string()));
}
