use std::cell::RefCell;

use ya_player::api::{station_id, ApiError, HttpClient, WaveStation, YandexMusicClient};
use ya_player::json::JsonValue;
use ya_player::auth::{extract_oauth_token, extract_oauth_token_from_redirect};
use ya_player::player::{PlaybackMode, PlayerCommand, PlayerState};
use ya_player::text::trim_str;

struct RecordingHttp {
    urls: RefCell<Vec<String>>,
}

impl HttpClient for RecordingHttp {
    fn get(&self, url: &str, _token: &str) -> Result<String, ApiError> {
        self.urls.borrow_mut().push(url.to_owned());
        Ok("{}".to_owned())
    }

    fn post_json(&self, _url: &str, _token: &str, _body: JsonValue) -> Result<String, ApiError> {
        Err(ApiError::Http("POST is not implemented".to_owned()))
    }
}

fn queue(names: &[&str]) -> PlayerState {
    let mut state = PlayerState::default();
    state.set_queue(names.iter().map(|n| n.to_string()).collect());
    state
}

#[test]
fn previous_undoes_next_and_next_undoes_previous() {
    let mut state = queue(&["A", "B", "C"]);
    state.select(2);
    state.next();
    state.previous();
    assert_eq!(state.current_index(), Some(2));
    state.previous();
    state.next();
    assert_eq!(state.current_index(), Some(2));
}

#[test]
fn as_many_nexts_as_tracks_come_back_to_the_start() {
    let mut state = queue(&["A", "B", "C", "D"]);
    state.select(1);
    for _ in 0..4 {
        state.next();
    }
    assert_eq!(state.current_index(), Some(1));
    state.next();
    state.next();
    assert_eq!(state.current_index(), Some(3));
}

#[test]
fn an_empty_queue_has_no_current_track() {
    let mut state = queue(&[]);
    state.next();
    assert_eq!(state.current_index(), None);
    state.previous();
    assert_eq!(state.current_track(), None);
    assert!(!state.is_current_track_last());
    assert!(!state.select(0));
    assert!(!state.select_and_play(0));
    assert!(!state.is_playing());
}

#[test]
fn toggling_twice_restores_state() {
    let mut state = queue(&["A"]);
    state.apply(PlayerCommand::PlayPause);
    state.apply(PlayerCommand::PlayPause);
    assert!(!state.is_playing());
    assert_eq!(PlaybackMode::Continue.toggle().toggle(), PlaybackMode::Continue);
    assert_eq!(PlaybackMode::default(), PlaybackMode::Continue);
}

#[test]
fn tokens_come_out_trimmed() {
    assert_eq!(extract_oauth_token("  \u{3000}abc\u{a0} "), Some("abc".to_owned()));
    assert_eq!(
        extract_oauth_token("https://x/#access_token=  tok  &x=1"),
        Some("tok".to_owned())
    );
    assert_eq!(extract_oauth_token("OAuth   spaced "), Some("spaced".to_owned()));
}

#[test]
fn token_input_edge_cases() {
    assert_eq!(extract_oauth_token(""), None);
    assert_eq!(extract_oauth_token(" \t\n "), None);
    // Trimming leaves no space after the prefix, so the word itself is the token.
    assert_eq!(extract_oauth_token("OAuth "), Some("OAuth".to_owned()));
    // A blank parameter value falls back to the whole input.
    assert_eq!(
        extract_oauth_token("https://x/#access_token=&y=1"),
        Some("https://x/#access_token=&y=1".to_owned())
    );
    assert_eq!(extract_oauth_token_from_redirect("https://x/#access_token=&y=1"), None);
    assert_eq!(
        extract_oauth_token_from_redirect("a?b=1&access_token=first#access_token=second"),
        Some("first".to_owned())
    );
    assert_eq!(extract_oauth_token_from_redirect("access_token"), None);
}

#[test]
fn redirect_and_entry_agree_on_addresses() {
    let url = "https://music.yandex.ru/#access_token=y0_abc&token_type=bearer&expires_in=31536000";
    assert_eq!(extract_oauth_token_from_redirect(url), Some("y0_abc".to_owned()));
    assert_eq!(extract_oauth_token(url), extract_oauth_token_from_redirect(url));
}

#[test]
fn trimming_twice_changes_nothing() {
    let once = trim_str(" \u{2003} x y \n");
    assert_eq!(once, "x y");
    assert_eq!(trim_str(&once), once);
    assert_eq!(trim_str(""), "");
}

#[test]
fn search_queries_are_form_encoded() {
    let client = YandexMusicClient::new(
        "token".to_owned(),
        RecordingHttp {
            urls: RefCell::new(Vec::new()),
        },
    );
    client.search_tracks("  a&b c=ё~*  ").expect("search");
    assert_eq!(
        client.http().urls.borrow().clone(),
        vec!["https://api.music.yandex.net/search?text=a%26b+c%3D%D1%91%7E*&type=track".to_owned()]
    );
}

#[test]
fn station_ids_join_type_and_tag() {
    let station = WaveStation {
        station_type: "genre".to_owned(),
        tag: "rock".to_owned(),
        name: "Рок".to_owned(),
    };
    assert_eq!(station_id(&station), "genre:rock");
}

#[test]
fn session_errors_come_from_the_transport() {
    let client = YandexMusicClient::new(
        "token".to_owned(),
        RecordingHttp {
            urls: RefCell::new(Vec::new()),
        },
    );
    let station = WaveStation {
        station_type: "user".to_owned(),
        tag: "onyourwave".to_owned(),
        name: "Моя волна".to_owned(),
    };
    let result = client.station_session_tracks(&station);
    assert!(matches!(result, Err(ApiError::Http(ref m)) if m == "POST is not implemented"));
    assert!(client.http().urls.borrow().is_empty());
}

#[test]
fn a_copied_queue_is_the_same_queue() {
    let mut state = queue(&["A", "B"]);
    state.select_and_play(1);
    let copy = state.clone();
    assert_eq!(copy, state);
    assert_eq!(copy.current_track(), Some("B"));
    assert!(copy.is_playing());
}

#[test]
fn the_current_track_exists_exactly_for_a_non_empty_queue() {
    let empty = PlayerState::default();
    assert_eq!(empty.current_index(), None);
    assert_eq!(empty.current_track(), None);
    assert!(!empty.is_current_track_last());

    let mut one = queue(&["A"]);
    assert_eq!(one.current_index(), Some(0));
    assert!(one.is_current_track_last());
    one.set_queue(Vec::new());
    assert_eq!(one.current_index(), None);
    assert!(!one.is_current_track_last());
}

#[test]
fn a_text_queue_has_no_track_summary() {
    let mut state = queue(&["A", "B"]);
    state.next();
    state.select_and_play(1);
    assert_eq!(state.current_track(), Some("B"));
    assert_eq!(state.current_track_summary(), None);
}

#[test]
fn redirect_tokens_come_from_the_parameter() {
    assert_eq!(extract_oauth_token_from_redirect("AQAAA-token"), None);
    assert_eq!(extract_oauth_token("AQAAA-token"), Some("AQAAA-token".to_owned()));
    let url = "https://x/?a=1&access_token= y0_tok #state=2";
    let token = extract_oauth_token_from_redirect(url).expect("token");
    assert_eq!(token, "y0_tok");
    assert!(url.contains("access_token="));
    assert!(!token.contains('&') && !token.contains('?') && !token.contains('#'));
    assert_eq!(extract_oauth_token(url), Some(token));
}
