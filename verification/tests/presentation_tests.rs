use std::time::Duration;

use ya_player::api::{AccountStatus, TrackSummary, WaveStation};
use ya_player::controller::{should_pause_for_output_change, QueueSource};
use ya_player::presentation::{
    account_initials, current_track_bar_text, format_duration, is_permission_error,
    is_same_track, play_pause_button_label, same_station, shows_token_row, startup_status,
    track_row_label, volume_icon, wave_label,
};

#[test]
fn account_initials_use_display_name_words() {
    let account = AccountStatus {
        uid: 42,
        login: "demo-user".to_owned(),
        display_name: "Demo User".to_owned(),
    };

    assert_eq!(account_initials(&account), "DU");
}

#[test]
fn account_initials_fallback_to_login() {
    let account = AccountStatus {
        uid: 42,
        login: "demo-user".to_owned(),
        display_name: "   ".to_owned(),
    };

    assert_eq!(account_initials(&account), "D");
}

#[test]
fn account_initials_take_two_words_and_fall_back_to_ya() {
    let account = AccountStatus {
        uid: 1,
        login: "x".to_owned(),
        display_name: " anna  maria  petrova ".to_owned(),
    };
    assert_eq!(account_initials(&account), "AM");

    let blank = AccountStatus {
        uid: 1,
        login: "  ".to_owned(),
        display_name: "".to_owned(),
    };
    assert_eq!(account_initials(&blank), "Я");
}

#[test]
fn play_pause_button_label_reflects_playback_state() {
    assert_eq!(play_pause_button_label(true), "⏸");
    assert_eq!(play_pause_button_label(false), "▶");
}

#[test]
fn current_track_bar_text_falls_back_when_empty() {
    assert_eq!(
        current_track_bar_text(Some("Artist — Track")),
        "Artist — Track"
    );
    assert_eq!(current_track_bar_text(None), "Трек не выбран");
}

#[test]
fn duration_formats_as_minutes_and_seconds() {
    assert_eq!(format_duration(Duration::from_secs(0).as_secs()), "0:00");
    assert_eq!(format_duration(Duration::from_secs(65).as_secs()), "1:05");
    assert_eq!(format_duration(Duration::from_secs(600).as_secs()), "10:00");
}

#[test]
fn duration_formats_long_tracks() {
    assert_eq!(format_duration(3599), "59:59");
    assert_eq!(format_duration(7325), "122:05");
}

#[test]
fn volume_icon_reflects_volume_level() {
    assert_eq!(volume_icon(0), "🔇");
    assert_eq!(volume_icon(37), "🔈");
    assert_eq!(volume_icon(100), "🔉");
    assert_eq!(volume_icon(150), "🔊");
}

#[test]
fn volume_icon_bounds() {
    assert_eq!(volume_icon(1), "🔈");
    assert_eq!(volume_icon(60), "🔈");
    assert_eq!(volume_icon(61), "🔉");
    assert_eq!(volume_icon(101), "🔊");
}

#[test]
fn output_device_change_pauses_only_during_playback() {
    assert!(should_pause_for_output_change(
        Some("AirPods"),
        Some("MacBook Speakers"),
        true
    ));
    assert!(!should_pause_for_output_change(
        Some("AirPods"),
        Some("MacBook Speakers"),
        false
    ));
    assert!(!should_pause_for_output_change(
        Some("AirPods"),
        Some("AirPods"),
        true
    ));
}

#[test]
fn output_device_appearing_or_vanishing_pauses() {
    assert!(should_pause_for_output_change(None, Some("AirPods"), true));
    assert!(should_pause_for_output_change(Some("AirPods"), None, true));
    assert!(!should_pause_for_output_change(None, None, true));
}

#[test]
fn same_track_ignores_missing_albums() {
    let a = TrackSummary {
        id: "1".to_owned(),
        album_id: Some("10".to_owned()),
        title: "A".to_owned(),
        artist: "X".to_owned(),
    };
    let b = TrackSummary {
        album_id: None,
        ..a.clone()
    };
    let c = TrackSummary {
        album_id: Some("11".to_owned()),
        ..a.clone()
    };
    let d = TrackSummary {
        id: "2".to_owned(),
        ..a.clone()
    };
    assert!(is_same_track(Some(&a), &a));
    assert!(is_same_track(Some(&a), &b));
    assert!(!is_same_track(Some(&a), &c));
    assert!(!is_same_track(Some(&a), &d));
    assert!(!is_same_track(None, &a));
}

#[test]
fn same_station_compares_type_and_tag() {
    let a = WaveStation {
        station_type: "user".to_owned(),
        tag: "onyourwave".to_owned(),
        name: "Моя волна".to_owned(),
    };
    let b = WaveStation {
        name: "Other name".to_owned(),
        ..a.clone()
    };
    let c = WaveStation {
        tag: "rock".to_owned(),
        ..a.clone()
    };
    assert!(same_station(&a, &b));
    assert!(!same_station(&a, &c));
}

#[test]
fn permission_errors_are_recognised() {
    assert!(is_permission_error(
        "execution error: Not authorized to send Apple events to Safari. (-1743)"
    ));
    assert!(is_permission_error("osascript is not allowed assistive access."));
    assert!(is_permission_error("Действие не разрешено"));
    assert!(!is_permission_error("Safari got an error: Can’t get document 1."));
}

#[test]
fn wave_label_follows_the_queue() {
    assert_eq!(wave_label(QueueSource::Wave, true, true), "Волна играет");
    assert_eq!(wave_label(QueueSource::Favorites, true, false), "Выберите подборку или запустите свою волну.");
    assert_eq!(wave_label(QueueSource::Wave, false, true), "Волна готова. Нажмите play.");
}

#[test]
fn token_row_hides_while_signing_in_or_signed_in() {
    assert!(shows_token_row(false, false, ""));
    assert!(shows_token_row(false, true, "   "));
    assert!(!shows_token_row(false, true, " tok "));
    assert!(!shows_token_row(true, false, ""));
}

#[test]
fn startup_status_reports_media_keys() {
    assert_eq!(startup_status(None, None), "Введите OAuth token и проверьте вход");
    let none: Vec<String> = Vec::new();
    assert_eq!(startup_status(None, Some(Ok(&none))), "Введите OAuth token и проверьте вход");
    let warnings = vec!["a: busy".to_owned(), "b: busy".to_owned()];
    assert_eq!(
        startup_status(None, Some(Ok(&warnings))),
        "Часть глобальных клавиш не зарегистрировалась: a: busy; b: busy"
    );
    assert_eq!(
        startup_status(Some("dbus"), Some(Err("no X"))),
        "Системные media keys недоступны: dbus. Глобальные media keys недоступны: no X. В окне работают Space и стрелки."
    );
}

#[test]
fn track_rows_mark_the_current_track() {
    let track = TrackSummary {
        id: "1".to_owned(),
        album_id: None,
        title: "Song".to_owned(),
        artist: "Artist".to_owned(),
    };
    assert_eq!(track_row_label(&track, true), "▶ Artist — Song");
    assert_eq!(track_row_label(&track, false), "Artist — Song");
}
