use chiubi_cloud::{
    active_tools, csv_line, find_playlist, menu_continues, playlist_id, select_by_id,
    to_lower_hex, tracks_csv, tracks_link, DownloadError, Playlist, PlaylistOverview, Tool,
    ToolError, Track, TrackDto,
};

fn overview(title: &str) -> PlaylistOverview {
    PlaylistOverview { key: format!("/k/{}", title), title: title.to_string(), summary: String::new() }
}

fn track(artist: &str, album: &str, title: &str) -> Track {
    Track {
        title: title.to_string(),
        album: album.to_string(),
        artist: artist.to_string(),
        media_locator: "/p/1.mp3".to_string(),
    }
}

#[test]
fn playlist_id_is_md5_in_hex() {
    assert_eq!(playlist_id("abc"), "900150983cd24fb0d6963f7d28e17f72");
    assert_eq!(playlist_id(""), "d41d8cd98f00b204e9800998ecf8427e");
}

#[test]
fn hex_has_two_lower_digits_per_byte() {
    assert_eq!(to_lower_hex(&vec![0x00, 0x0f, 0xa0, 0xff]), "000fa0ff");
    assert_eq!(to_lower_hex(&vec![]), "");
}

#[test]
fn tracks_link_holds_the_id() {
    assert_eq!(tracks_link("abc"), "/playlists/abc/tracks");
}

#[test]
fn playlist_found_by_unique_id() {
    let lists = vec![overview("Road"), overview("abc"), overview("Home")];
    let id = "900150983cd24fb0d6963f7d28e17f72".to_string();
    assert_eq!(find_playlist(&lists, &id), Some(1));
    assert_eq!(find_playlist(&lists, &"nope".to_string()), None);
}

#[test]
fn duplicate_titles_are_not_found() {
    let lists = vec![overview("abc"), overview("abc")];
    assert_eq!(find_playlist(&lists, &playlist_id("abc")), None);
}

#[test]
fn select_by_id_needs_exactly_one_match() {
    let ids = vec!["a".to_string(), "b".to_string(), "a".to_string()];
    assert_eq!(select_by_id(&ids, &"b".to_string()), Some(1));
    assert_eq!(select_by_id(&ids, &"a".to_string()), None);
    assert_eq!(select_by_id(&ids, &"c".to_string()), None);
}

#[test]
fn csv_lists_artist_album_title() {
    let p = Playlist { title: "Mix".to_string(), tracks: vec![track("A", "X", "T1"), track("B", "Y", "T2")] };
    assert_eq!(tracks_csv(&p), "artist;album;title\nA;X;T1\nB;Y;T2");
    assert_eq!(csv_line(&track("A", "X", "T1")), "A;X;T1");
}

#[test]
fn csv_of_empty_playlist_is_the_header() {
    let p = Playlist { title: "Mix".to_string(), tracks: vec![] };
    assert_eq!(tracks_csv(&p), "artist;album;title\n");
}

#[test]
fn track_dto_keeps_the_metadata() {
    let dto = TrackDto::from(track("A", "X", "T1"));
    assert_eq!((dto.artist.as_str(), dto.album.as_str(), dto.title.as_str()), ("A", "X", "T1"));
}

#[test]
fn menu_without_config_offers_init_and_exit() {
    assert_eq!(active_tools(false), vec![Tool::PlexInit, Tool::Exit]);
    assert_eq!(
        active_tools(true),
        vec![Tool::PlexInit, Tool::SyncPlaylist, Tool::ExportPlaylist, Tool::Exit]
    );
}

#[test]
fn menu_entries_show_name_and_description() {
    assert_eq!(Tool::PlexInit.describe().menu_entry(), "plex-init: Specify access to your Plex instance");
    assert_eq!(Tool::Exit.describe().menu_entry(), "exit: Exit program");
    assert!(Tool::PlexInit.is_active(false));
    assert!(!Tool::SyncPlaylist.is_active(false));
}

#[test]
fn only_abort_leaves_the_menu() {
    assert!(!menu_continues(&Err(ToolError::Abort)));
    assert!(menu_continues(&Ok(())));
    assert!(menu_continues(&Err(ToolError::NoPlexConfig)));
    assert!(menu_continues(&Err(ToolError::DownloadError(DownloadError::ContentLengthNotAvailable))));
}
