use ya_player::api::{ApiError, TrackSummary, WaveStation};
use ya_player::responses::{
    account_status_from_body, download_source_from_body, liked_tracks_from_body,
    search_results_from_body, station_tracks_from_body, track_list_from_body,
    wave_stations_from_body, LikedTracks,
};

fn summary(id: &str, album_id: Option<&str>, title: &str, artist: &str) -> TrackSummary {
    TrackSummary {
        id: id.to_owned(),
        album_id: album_id.map(str::to_owned),
        title: title.to_owned(),
        artist: artist.to_owned(),
    }
}

#[test]
fn bodies_that_are_not_json_are_parse_errors() {
    assert!(matches!(account_status_from_body("not json"), Err(ApiError::Parse(_))));
    assert!(matches!(liked_tracks_from_body("{"), Err(ApiError::Parse(_))));
    assert!(matches!(track_list_from_body(""), Err(ApiError::Parse(_))));
    assert!(matches!(wave_stations_from_body("[1,"), Err(ApiError::Parse(_))));
    assert!(matches!(station_tracks_from_body("nope"), Err(ApiError::Parse(_))));
    assert!(matches!(download_source_from_body("<xml/>"), Err(ApiError::Parse(_))));
    assert!(matches!(search_results_from_body("}"), Err(ApiError::Parse(_))));
}

#[test]
fn account_status_names_the_missing_field() {
    assert!(matches!(
        account_status_from_body("{}"),
        Err(ApiError::MissingField("account"))
    ));
    assert!(matches!(
        account_status_from_body(r#"{"account":{"uid":1}}"#),
        Err(ApiError::MissingField("account.login"))
    ));
    assert!(matches!(
        account_status_from_body(r#"{"account":{"login":"demo"}}"#),
        Err(ApiError::MissingField("account.uid"))
    ));
    assert!(matches!(
        account_status_from_body(r#"{"account":{"login":"demo","uid":-1}}"#),
        Err(ApiError::MissingField("account.uid"))
    ));
}

#[test]
fn account_display_name_falls_back_through_names() {
    let shown = |body: &str| account_status_from_body(body).expect("account").display_name;
    assert_eq!(
        shown(r#"{"account":{"uid":1,"login":"demo","displayName":"  Shown  ","firstName":"F"}}"#),
        "Shown"
    );
    assert_eq!(
        shown(r#"{"account":{"uid":1,"login":"demo","displayName":" ","firstName":"F","secondName":"S"}}"#),
        "F S"
    );
    assert_eq!(shown(r#"{"account":{"uid":1,"login":"demo","lastName":"L"}}"#), "L");
    assert_eq!(shown(r#"{"account":{"uid":1,"login":"demo","firstName":"F"}}"#), "F");
    assert_eq!(shown(r#"{"account":{"uid":1,"login":"demo"}}"#), "demo");
}

#[test]
fn liked_tracks_without_library_or_ids_are_errors() {
    assert!(matches!(
        liked_tracks_from_body(r#"{"library":{}}"#),
        Err(ApiError::MissingField("library.tracks"))
    ));
    assert!(matches!(
        liked_tracks_from_body(r#"{"library":{"tracks":[{"id":"1"},{"albumId":"2"}]}}"#),
        Err(ApiError::MissingField("track.id"))
    ));
}

#[test]
fn liked_track_refs_become_a_lookup_list() {
    match liked_tracks_from_body(
        r#"{"library":{"tracks":[{"id":"1","albumId":2},{"id":3},{"id":"4","title":"T"}]}}"#,
    ) {
        Ok(LikedTracks::Lookup(ids)) => assert_eq!(ids, "1:2,3,4"),
        _ => panic!("expected a lookup list"),
    }
    match liked_tracks_from_body(r#"{"library":{"tracks":[]}}"#) {
        Ok(LikedTracks::Ready(tracks)) => assert!(tracks.is_empty()),
        _ => panic!("expected an empty ready list"),
    }
}

#[test]
fn track_fields_fall_back_to_placeholders() {
    let tracks = track_list_from_body(r#"[{},{"id":5,"albums":[{"id":9}],"title":"X","artists":[{"name":"Y"}]}]"#)
        .expect("tracks");
    assert_eq!(
        tracks,
        vec![
            summary("unknown", None, "Untitled", "Unknown artist"),
            summary("5", Some("9"), "X", "Y"),
        ]
    );
}

#[test]
fn track_list_and_sequence_name_the_missing_field() {
    assert!(matches!(
        track_list_from_body("{}"),
        Err(ApiError::MissingField("tracks[]"))
    ));
    assert!(matches!(
        station_tracks_from_body(r#"{"result":{}}"#),
        Err(ApiError::MissingField("sequence"))
    ));
}

#[test]
fn station_sequence_skips_entries_without_a_track() {
    let tracks = station_tracks_from_body(
        r#"{"sequence":[{"type":"ad"},{"track":{"id":"1","title":"One","artists":[{"name":"A"}]}}]}"#,
    )
    .expect("tracks");
    assert_eq!(tracks, vec![summary("1", None, "One", "A")]);
}

#[test]
fn stations_without_an_id_are_skipped_and_names_default() {
    let stations = wave_stations_from_body(
        r#"{"stations":[{"station":{"name":"No id"}},{"id":{"type":"genre"}}]}"#,
    )
    .expect("stations");
    assert_eq!(
        stations,
        vec![WaveStation {
            station_type: "genre".to_owned(),
            tag: "unknown".to_owned(),
            name: "Unnamed wave".to_owned(),
        }]
    );
}

#[test]
fn download_source_prefers_the_best_mp3() {
    let body = r#"[
        {"codec":"aac","bitrateInKbps":320,"downloadInfoUrl":"aac-320"},
        {"codec":"mp3","bitrateInKbps":128,"downloadInfoUrl":"mp3-128"},
        {"codec":"mp3","bitrateInKbps":320,"downloadInfoUrl":"mp3-320"},
        {"codec":"mp3","bitrateInKbps":192,"downloadInfoUrl":"mp3-192"}
    ]"#;
    assert_eq!(download_source_from_body(body).expect("source"), "mp3-320");
}

#[test]
fn download_source_takes_the_last_of_equal_mp3s() {
    let body = r#"{"result":[
        {"codec":"mp3","bitrateInKbps":320,"downloadInfoUrl":"first"},
        {"codec":"mp3","bitrateInKbps":320,"downloadInfoUrl":"second"},
        {"codec":"mp3","downloadInfoUrl":"no-rate"}
    ]}"#;
    assert_eq!(download_source_from_body(body).expect("source"), "second");
}

#[test]
fn download_source_without_mp3_takes_the_first_entry() {
    let body = r#"[{"codec":"aac","downloadInfoUrl":"aac-a"},{"codec":"flac","downloadInfoUrl":"flac"}]"#;
    assert_eq!(download_source_from_body(body).expect("source"), "aac-a");
}

#[test]
fn download_source_names_the_missing_field() {
    assert!(matches!(
        download_source_from_body("{}"),
        Err(ApiError::MissingField("download-info[]"))
    ));
    assert!(matches!(
        download_source_from_body("[]"),
        Err(ApiError::MissingField("downloadInfoUrl"))
    ));
    assert!(matches!(
        download_source_from_body(r#"[{"codec":"mp3","bitrateInKbps":320}]"#),
        Err(ApiError::MissingField("downloadInfoUrl"))
    ));
}

#[test]
fn search_without_track_results_is_empty() {
    assert!(search_results_from_body("{}").expect("results").is_empty());
    assert!(search_results_from_body(r#"{"result":{"tracks":{}}}"#)
        .expect("results")
        .is_empty());
}

#[test]
fn result_envelope_reads_as_its_content() {
    let inner = r#"{"account":{"uid":7,"login":"x"}}"#;
    let wrapped = r#"{"result":{"account":{"uid":7,"login":"x"}}}"#;
    assert_eq!(
        account_status_from_body(inner).expect("inner"),
        account_status_from_body(wrapped).expect("wrapped")
    );
    let inner = r#"{"sequence":[{"track":{"id":"2"}}]}"#;
    let wrapped = r#"{"result":{"sequence":[{"track":{"id":"2"}}]}}"#;
    assert_eq!(
        station_tracks_from_body(inner).expect("inner"),
        station_tracks_from_body(wrapped).expect("wrapped")
    );
}

#[test]
fn api_errors_read_as_messages() {
    assert_eq!(ApiError::Http("timeout".to_owned()).message(), "HTTP error: timeout");
    assert_eq!(ApiError::Parse("bad".to_owned()).message(), "parse error: bad");
    assert_eq!(ApiError::MissingField("sequence").message(), "missing field: sequence");
}
