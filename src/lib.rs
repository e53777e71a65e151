//! Synchronises a media server's audio playlists into a local directory.
//!
//! The library holds the decisions of a sync run: the server addresses it asks,
//! how a decoded playlist document becomes tracks, which local file name each
//! track gets, which tracks still need a download, and how a sequence of
//! downloads proceeds and stops. Fetching, parsing the server's XML, reading
//! directories and writing files are left to the caller.

mod config;
mod download;
mod export;
mod plex;
mod sync;
mod tools;

pub use config::{
    playlists_url_spec, static_query_params_spec, PlexConfig, CLIENT_QUERY_PARAMS,
    PLAYLISTS_QUERY, TOKEN_QUERY_KEY,
};
pub use download::{
    check_content_length, check_transfer_complete, drive, finish_message,
    lemma_failure_ends_run, lemma_run_stops_at_first_failure,
    lemma_run_succeeds_when_all_succeed, next_step_of, progress_message, record_outcome,
    run_result, run_wf, DownloadError, DownloadRun, DownloadRunView, RunStep, DOWNLOADED,
    DOWNLOADING,
};
pub use export::{
    csv_line, csv_line_of, csv_lines, find_playlist, hex_digit, hex_of, md5_digest_of,
    playlist_id, playlist_id_of, playlist_ids, positions_of, select_by_id, to_lower_hex,
    tracks_csv, tracks_link, unique_position, TrackDto, CSV_HEADER, CSV_SEPARATOR, HEX_DIGITS,
    LINE_BREAK, PLAYLISTS_PATH, TRACKS_PATH,
};
pub use plex::{
    all_single_part, download_url_of, file_extension_of, inferred_file_name, last_dot,
    lemma_file_name_determined, sanitized, single_part_key, track_of_element, DecodeError,
    MediaElement, PartElement, Playlist, PlaylistElement, PlaylistOverview, Track,
    TrackElement, TrackView, NAME_SEPARATOR, PORTABLE_FILE_NAMES, QUERY_START,
};
pub use sync::{
    all_named, contains_name, download_views, existing_names, is_missing, join_path,
    join_path_spec, lemma_plan_empty_when_all_present, lemma_plan_keeps_track_order,
    lemma_sync_idempotent, missing_positions, missing_tracks,
    names_of, plan_item, planned_names, prepare_playlist_sync, sync_plan, track_views,
    SyncOptions, TrackDownload, TrackDownloadView, PATH_SEPARATOR,
};
pub use tools::{
    active_tools, active_tools_spec, menu_continues, menu_tools, tool_description,
    tool_is_active, tool_name, Tool, ToolDescription, ToolError, ENTRY_SEPARATOR,
};
