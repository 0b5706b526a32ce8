use std::cell::RefCell;
use std::collections::VecDeque;
use std::time::Duration;

use ya_player::api::{ApiError, HttpClient, TrackSummary, WaveStation, YandexMusicClient};
use ya_player::controller::{
    can_resume_track, clamp_volume, collect_browser_urls, load_wave_data, my_wave_station,
    playback_completion_step, player_command_step, system_media_step, token_watch_step,
    CompletionAction, MediaAction, PlayerAction, QueueSource, TokenWatch, MAX_VOLUME_PERCENT,
};
use ya_player::json::JsonValue;
use ya_player::media_controls::SystemMediaCommand;
use ya_player::player::{PlaybackMode, PlayerCommand, PlayerState};

fn track(id: &str) -> TrackSummary {
    TrackSummary {
        id: id.to_owned(),
        album_id: None,
        title: format!("Title {id}"),
        artist: format!("Artist {id}"),
    }
}

fn three_tracks() -> PlayerState {
    let mut player = PlayerState::default();
    player.set_tracks(vec![track("1"), track("2"), track("3")]);
    player
}

fn station(station_type: &str, tag: &str, name: &str) -> WaveStation {
    WaveStation {
        station_type: station_type.to_owned(),
        tag: tag.to_owned(),
        name: name.to_owned(),
    }
}

struct ScriptedHttp {
    calls: RefCell<Vec<String>>,
    gets: RefCell<VecDeque<Result<String, String>>>,
    posts: RefCell<VecDeque<String>>,
}

impl ScriptedHttp {
    fn new(gets: Vec<Result<&str, &str>>, posts: Vec<&str>) -> Self {
        Self {
            calls: RefCell::new(Vec::new()),
            gets: RefCell::new(
                gets.into_iter()
                    .map(|r| r.map(str::to_owned).map_err(str::to_owned))
                    .collect(),
            ),
            posts: RefCell::new(posts.into_iter().map(str::to_owned).collect()),
        }
    }
}

impl HttpClient for ScriptedHttp {
    fn get(&self, url: &str, _token: &str) -> Result<String, ApiError> {
        self.calls.borrow_mut().push(format!("GET {url}"));
        match self.gets.borrow_mut().pop_front() {
            Some(Ok(body)) => Ok(body),
            Some(Err(message)) => Err(ApiError::Http(message)),
            None => Err(ApiError::Http("no answer".to_owned())),
        }
    }

    fn post_json(&self, url: &str, _token: &str, _body: JsonValue) -> Result<String, ApiError> {
        self.calls.borrow_mut().push(format!("POST {url}"));
        self.posts
            .borrow_mut()
            .pop_front()
            .ok_or(ApiError::Http("no answer".to_owned()))
    }
}

#[test]
fn volume_is_clamped_to_the_slider_maximum() {
    assert_eq!(MAX_VOLUME_PERCENT, 150);
    assert_eq!(clamp_volume(37), 37);
    assert_eq!(clamp_volume(150), 150);
    assert_eq!(clamp_volume(200), 150);
}

#[test]
fn busy_audio_leaves_the_queue_alone() {
    let mut player = three_tracks();
    let action =
        player_command_step(&mut player, PlayerCommand::Next, true, QueueSource::Favorites, false);
    assert_eq!(action, PlayerAction::Busy);
    assert_eq!(player.current_index(), Some(0));
}

#[test]
fn play_pause_resumes_loaded_audio_or_fetches_the_track() {
    let mut player = three_tracks();
    let action = player_command_step(
        &mut player,
        PlayerCommand::PlayPause,
        false,
        QueueSource::Favorites,
        true,
    );
    assert_eq!(action, PlayerAction::ResumeAudio);
    assert!(player.is_playing());

    let action = player_command_step(
        &mut player,
        PlayerCommand::PlayPause,
        false,
        QueueSource::Favorites,
        true,
    );
    assert_eq!(action, PlayerAction::PauseAudio);
    assert!(!player.is_playing());

    let action = player_command_step(
        &mut player,
        PlayerCommand::PlayPause,
        false,
        QueueSource::Favorites,
        false,
    );
    assert_eq!(action, PlayerAction::PlayCurrent);
    assert!(player.is_playing());
}

#[test]
fn next_on_the_last_wave_track_loads_more_of_the_wave() {
    let mut player = three_tracks();
    player.select_and_play(2);
    let action =
        player_command_step(&mut player, PlayerCommand::Next, false, QueueSource::Wave, false);
    assert_eq!(action, PlayerAction::LoadWave(true));
    assert_eq!(player.current_index(), Some(2));

    let action = player_command_step(
        &mut player,
        PlayerCommand::Next,
        false,
        QueueSource::Favorites,
        false,
    );
    assert_eq!(action, PlayerAction::Moved(true));
    assert_eq!(player.current_index(), Some(0));

    let action = player_command_step(
        &mut player,
        PlayerCommand::Previous,
        false,
        QueueSource::Wave,
        false,
    );
    assert_eq!(action, PlayerAction::Moved(true));
    assert_eq!(player.current_index(), Some(2));
}

#[test]
fn finished_tracks_move_on_repeat_or_load_more() {
    let mut player = three_tracks();
    player.play();
    let action = playback_completion_step(
        &mut player,
        false,
        true,
        true,
        PlaybackMode::Continue,
        QueueSource::Favorites,
    );
    assert_eq!(action, CompletionAction::PlayCurrent);
    assert_eq!(player.current_index(), Some(1));

    let action = playback_completion_step(
        &mut player,
        false,
        true,
        true,
        PlaybackMode::RepeatOne,
        QueueSource::Favorites,
    );
    assert_eq!(action, CompletionAction::PlayCurrent);
    assert_eq!(player.current_index(), Some(1));

    player.select(2);
    let action = playback_completion_step(
        &mut player,
        false,
        true,
        true,
        PlaybackMode::Continue,
        QueueSource::Wave,
    );
    assert_eq!(action, CompletionAction::LoadWave);
    assert_eq!(player.current_index(), Some(2));
}

#[test]
fn unfinished_or_paused_playback_waits() {
    let mut player = three_tracks();
    let paused = playback_completion_step(
        &mut player,
        false,
        true,
        true,
        PlaybackMode::Continue,
        QueueSource::Favorites,
    );
    assert_eq!(paused, CompletionAction::Wait);
    player.play();
    let running = playback_completion_step(
        &mut player,
        false,
        false,
        true,
        PlaybackMode::Continue,
        QueueSource::Favorites,
    );
    assert_eq!(running, CompletionAction::Wait);
    let other_audio = playback_completion_step(
        &mut player,
        false,
        true,
        false,
        PlaybackMode::Continue,
        QueueSource::Favorites,
    );
    assert_eq!(other_audio, CompletionAction::Wait);
    assert_eq!(player.current_index(), Some(0));
}

#[test]
fn system_play_and_pause_only_change_what_differs() {
    assert_eq!(
        system_media_step(SystemMediaCommand::Play, false),
        MediaAction::Player(PlayerCommand::PlayPause)
    );
    assert_eq!(system_media_step(SystemMediaCommand::Play, true), MediaAction::Nothing);
    assert_eq!(
        system_media_step(SystemMediaCommand::Pause, true),
        MediaAction::Player(PlayerCommand::PlayPause)
    );
    assert_eq!(system_media_step(SystemMediaCommand::Pause, false), MediaAction::Nothing);
    assert_eq!(
        system_media_step(SystemMediaCommand::Player(PlayerCommand::Next), false),
        MediaAction::Player(PlayerCommand::Next)
    );
    assert_eq!(
        system_media_step(SystemMediaCommand::Seek(Duration::from_secs(12)), true),
        MediaAction::Seek(Duration::from_secs(12))
    );
}

#[test]
fn loaded_audio_resumes_only_for_the_current_track() {
    let current = track("7");
    assert!(can_resume_track(Some("7"), Some(&current), true));
    assert!(!can_resume_track(Some("7"), Some(&current), false));
    assert!(!can_resume_track(Some("8"), Some(&current), true));
    assert!(!can_resume_track(None, Some(&current), true));
    assert!(!can_resume_track(Some("7"), None, true));
}

#[test]
fn browser_urls_skip_blank_answers() {
    let results = vec![
        Ok("https://music.yandex.ru/#access_token=abc".to_owned()),
        Ok(String::new()),
        Err("Safari got an error: Application isn't running.".to_owned()),
        Ok("https://example.com".to_owned()),
    ];
    assert_eq!(
        collect_browser_urls(&results),
        Ok(vec![
            "https://music.yandex.ru/#access_token=abc".to_owned(),
            "https://example.com".to_owned()
        ])
    );
}

#[test]
fn browser_urls_report_missing_permission() {
    let results = vec![
        Err("osascript is not allowed assistive access.".to_owned()),
        Ok(String::new()),
        Err("Not authorized to send Apple events to Google Chrome.".to_owned()),
    ];
    assert_eq!(
        collect_browser_urls(&results),
        Err("osascript is not allowed assistive access.; Not authorized to send Apple events to Google Chrome.".to_owned())
    );

    let mixed = vec![
        Err("Not authorized to send Apple events.".to_owned()),
        Err("execution error: syntax error".to_owned()),
    ];
    assert_eq!(collect_browser_urls(&mixed), Ok(Vec::new()));
    assert_eq!(collect_browser_urls(&Vec::new()), Ok(Vec::new()));
}

#[test]
fn my_wave_is_found_by_tag_or_falls_back_to_the_first_station() {
    let stations = vec![
        station("genre", "rock", "Рок"),
        station("user", "onyourwave", "Моя волна"),
    ];
    assert_eq!(my_wave_station(&stations), Some(&stations[1]));

    let others = vec![station("genre", "jazz", "Джаз"), station("genre", "pop", "Поп")];
    assert_eq!(my_wave_station(&others), Some(&others[0]));

    assert_eq!(my_wave_station(&Vec::new()), None);
}

const STATIONS_WRAPPED: &str = r#"{"result":{"stations":[{"station":{"id":{"type":"genre","tag":"rock"},"name":"Рок"}},{"station":{"id":{"type":"user","tag":"onyourwave"},"name":"Моя волна"}}]}}"#;
const SEQUENCE: &str = r#"{"result":{"sequence":[{"track":{"id":"1","title":"One","artists":[{"name":"A"}]}}]}}"#;
const EMPTY_SEQUENCE: &str = r#"{"result":{"sequence":[]}}"#;

#[test]
fn wave_data_uses_the_stations_own_tracks() {
    let http = ScriptedHttp::new(vec![Ok(STATIONS_WRAPPED), Ok(SEQUENCE)], vec![]);
    let client = YandexMusicClient::new("token".to_owned(), http);

    let data = load_wave_data(&client, None).expect("wave data");

    assert_eq!(data.station, Some(station("user", "onyourwave", "Моя волна")));
    assert_eq!(data.stations.len(), 2);
    assert_eq!(data.tracks.len(), 1);
    assert_eq!(data.tracks[0].title, "One");
    assert_eq!(data.diagnostics, "station user:onyourwave, station tracks ok");
    assert_eq!(
        client.http().calls.borrow().clone(),
        vec![
            "GET https://api.music.yandex.net/rotor/stations/list".to_owned(),
            "GET https://api.music.yandex.net/rotor/station/user:onyourwave/tracks?settings2=true"
                .to_owned(),
        ]
    );
}

#[test]
fn wave_data_falls_back_to_a_session_when_the_station_is_empty() {
    let http = ScriptedHttp::new(vec![Ok(STATIONS_WRAPPED), Ok(EMPTY_SEQUENCE)], vec![SEQUENCE]);
    let client = YandexMusicClient::new("token".to_owned(), http);
    let chosen = station("genre", "rock", "Рок");

    let data = load_wave_data(&client, Some(chosen.clone())).expect("wave data");

    assert_eq!(data.station, Some(chosen));
    assert_eq!(data.tracks.len(), 1);
    assert_eq!(
        data.diagnostics,
        "station genre:rock, station tracks empty, session fallback ok"
    );
    assert_eq!(
        client.http().calls.borrow().last().cloned(),
        Some("POST https://api.music.yandex.net/rotor/session/new".to_owned())
    );
}

#[test]
fn wave_data_falls_back_to_a_session_when_the_station_fails() {
    let http = ScriptedHttp::new(vec![Ok(STATIONS_WRAPPED), Err("boom")], vec![SEQUENCE]);
    let client = YandexMusicClient::new("token".to_owned(), http);

    let data = load_wave_data(&client, None).expect("wave data");

    assert_eq!(data.tracks.len(), 1);
    assert_eq!(
        data.diagnostics,
        "station user:onyourwave, station tracks failed: HTTP error: boom, session fallback ok"
    );
}

#[test]
fn wave_data_without_stations_plays_nothing() {
    let http = ScriptedHttp::new(vec![Ok(r#"{"stations":[]}"#)], vec![]);
    let client = YandexMusicClient::new("token".to_owned(), http);

    let data = load_wave_data(&client, None).expect("wave data");

    assert_eq!(data.station, None);
    assert!(data.stations.is_empty());
    assert!(data.tracks.is_empty());
    assert_eq!(data.diagnostics, "stations empty");
}

#[test]
fn wave_data_reports_a_failed_station_list() {
    let http = ScriptedHttp::new(vec![Err("offline")], vec![]);
    let client = YandexMusicClient::new("token".to_owned(), http);

    let result = load_wave_data(&client, None);

    assert!(matches!(result, Err(ApiError::Http(ref m)) if m == "offline"));
}

#[test]
fn token_watch_takes_the_first_address_with_a_token() {
    let urls = vec![
        "https://example.com".to_owned(),
        "https://music.yandex.ru/#access_token=first&x=1".to_owned(),
        "https://music.yandex.ru/#access_token=second".to_owned(),
    ];
    match token_watch_step(Ok(urls), false) {
        TokenWatch::Captured(token) => assert_eq!(token, "first"),
        _ => panic!("a token was there"),
    }
}

#[test]
fn token_watch_retries_fails_on_errors_and_times_out() {
    assert!(matches!(
        token_watch_step(Ok(vec!["https://example.com".to_owned()]), false),
        TokenWatch::Retry
    ));
    assert!(matches!(token_watch_step(Ok(Vec::new()), false), TokenWatch::Retry));
    match token_watch_step(Err("Not authorized".to_owned()), false) {
        TokenWatch::Failed(m) => assert_eq!(
            m,
            "Не смог прочитать URL браузера: Not authorized. Можно вставить redirect URL вручную."
        ),
        _ => panic!("reading failed"),
    }
    match token_watch_step(
        Ok(vec!["https://x/#access_token=late".to_owned()]),
        true,
    ) {
        TokenWatch::Failed(m) => assert_eq!(
            m,
            "Не дождался access_token из браузера. Вставьте redirect URL вручную."
        ),
        _ => panic!("time was out"),
    }
}
