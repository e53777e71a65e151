use chiubi_cloud::{
    DecodeError, MediaElement, PartElement, Playlist, PlaylistElement, PlaylistOverview,
    PlexConfig, Track, TrackElement, CLIENT_QUERY_PARAMS,
};

fn element(title: &str, media: Vec<Vec<&str>>) -> TrackElement {
    TrackElement {
        title: title.to_string(),
        album: "Album".to_string(),
        artist: "Artist".to_string(),
        media: media
            .into_iter()
            .map(|parts| MediaElement {
                parts: parts.into_iter().map(|k| PartElement { key: k.to_string() }).collect(),
            })
            .collect(),
    }
}

fn config() -> PlexConfig {
    PlexConfig { token: "secret".to_string(), url: "https://host:32400".to_string() }
}

fn track(locator: &str) -> Track {
    Track {
        title: "T".to_string(),
        album: "Al".to_string(),
        artist: "Ar".to_string(),
        media_locator: locator.to_string(),
    }
}

#[test]
fn single_part_track_decodes() {
    let t = Track::from_element(&element("Song", vec![vec!["/parts/1/a.mp3"]])).unwrap();
    assert_eq!(t.title, "Song");
    assert_eq!(t.album, "Album");
    assert_eq!(t.artist, "Artist");
    assert_eq!(t.media_locator, "/parts/1/a.mp3");
    assert_eq!(t.get_parts_key(), "/parts/1/a.mp3");
}

#[test]
fn two_renditions_are_an_invariant_violation() {
    let e = element("Song", vec![vec!["/a.mp3"], vec!["/b.flac"]]);
    assert!(matches!(Track::from_element(&e), Err(DecodeError::InvariantViolation)));
}

#[test]
fn no_rendition_is_an_invariant_violation() {
    let e = element("Song", vec![]);
    assert!(matches!(Track::from_element(&e), Err(DecodeError::InvariantViolation)));
}

#[test]
fn two_parts_or_none_are_an_invariant_violation() {
    let two = element("Song", vec![vec!["/a.mp3", "/b.mp3"]]);
    let none = element("Song", vec![vec![]]);
    assert!(matches!(Track::from_element(&two), Err(DecodeError::InvariantViolation)));
    assert!(matches!(Track::from_element(&none), Err(DecodeError::InvariantViolation)));
}

#[test]
fn one_bad_track_fails_the_whole_playlist() {
    let doc = PlaylistElement {
        title: "Mix".to_string(),
        tracks: vec![
            element("Good", vec![vec!["/a.mp3"]]),
            element("Bad", vec![vec!["/b.mp3"], vec!["/c.mp3"]]),
            element("Good too", vec![vec!["/d.mp3"]]),
        ],
    };
    assert!(matches!(Playlist::from_element(&doc), Err(DecodeError::InvariantViolation)));
}

#[test]
fn playlist_keeps_track_order() {
    let doc = PlaylistElement {
        title: "Mix".to_string(),
        tracks: vec![element("First", vec![vec!["/a.mp3"]]), element("Second", vec![vec!["/b.ogg"]])],
    };
    let p = Playlist::from_element(&doc).unwrap();
    assert_eq!(p.title, "Mix");
    let titles: Vec<&str> = p.tracks.iter().map(|t| t.title.as_str()).collect();
    assert_eq!(titles, vec!["First", "Second"]);
    assert_eq!(p.tracks[1].media_locator, "/b.ogg");
}

#[test]
fn empty_playlist_decodes() {
    let doc = PlaylistElement { title: "Empty".to_string(), tracks: vec![] };
    assert!(Playlist::from_element(&doc).unwrap().tracks.is_empty());
}

#[test]
fn extension_starts_at_last_dot() {
    assert_eq!(track("/library/parts/12.3/file.mp3").get_file_extension().unwrap(), ".mp3");
    assert_eq!(track("/a/b.tar.gz").get_file_extension().unwrap(), ".gz");
    assert_eq!(track("/a/b.").get_file_extension().unwrap(), ".");
}

#[test]
fn locator_without_dot_has_no_extension() {
    assert_eq!(track("/library/parts/12/file").get_file_extension(), Err(DecodeError::MissingExtension));
    assert_eq!(track("").infer_file_name(), Err(DecodeError::MissingExtension));
}

#[test]
fn file_name_is_artist_dash_title_extension() {
    assert_eq!(track("/p/1/file.flac").infer_file_name().unwrap(), "Ar - T.flac");
}

#[test]
fn file_name_is_the_same_on_every_call() {
    let a = track("/p/1/file.flac");
    let b = Track { album: "Other album".to_string(), ..track("/p/1/file.flac") };
    assert_eq!(a.infer_file_name(), a.infer_file_name());
    assert_eq!(a.infer_file_name(), b.infer_file_name());
}

#[test]
fn sanitising_removes_reserved_characters() {
    let t = Track {
        title: "a<b>c:d\"e|f?g*h\\i".to_string(),
        album: String::new(),
        artist: "x/y".to_string(),
        media_locator: "/p/1.mp3".to_string(),
    };
    assert_eq!(t.infer_file_name().unwrap(), "xy - abcdefghi.mp3");
}

#[test]
fn download_url_is_server_locator_and_query() {
    let url = track("/library/parts/5/file.mp3").get_download_url(&config());
    let expected = format!(
        "https://host:32400/library/parts/5/file.mp3?X-Plex-Token=secret{}",
        CLIENT_QUERY_PARAMS
    );
    assert_eq!(url, expected);
}

#[test]
fn playlist_url_is_server_key_and_query() {
    let p = PlaylistOverview {
        key: "/playlists/42/items".to_string(),
        title: "Road".to_string(),
        summary: "trip".to_string(),
    };
    assert_eq!(
        p.get_playlist_url(&config()),
        format!("https://host:32400/playlists/42/items?X-Plex-Token=secret{}", CLIENT_QUERY_PARAMS)
    );
}

#[test]
fn playlists_url_selects_audio_playlists() {
    let url = config().get_playlists_url();
    assert!(url.starts_with(
        "https://host:32400/playlists?playlistType=audio&includeCollections=1&includeExternalMedia=1&includeAdvanced=1&includeMeta=1&X-Plex-Token=secret&X-Plex-Product=Plex%20Web&"
    ));
    assert!(url.ends_with("&X-Plex-Provider-Version=3.2"));
}

#[test]
fn static_query_params_start_with_the_token() {
    let params = config().get_static_query_params();
    assert_eq!(params, format!("X-Plex-Token=secret{}", CLIENT_QUERY_PARAMS));
    assert!(params.contains("X-Plex-Client-Identifier=mg7p5uivc6f90wsoxu2asvad"));
}

#[test]
fn default_config_is_empty() {
    let c = PlexConfig::default();
    assert!(c.token.is_empty());
    assert!(c.url.is_empty());
}

#[test]
fn sync_folder_is_the_sanitised_title() {
    let p = PlaylistOverview {
        key: "/k".to_string(),
        title: "Best of 80s/90s".to_string(),
        summary: String::new(),
    };
    assert_eq!(p.sync_folder_name(), "Best of 80s90s");
}
