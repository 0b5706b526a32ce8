//! The player window's decisions: what a key, the end of a track, a media
//! control or a change of audio output leads to, which station to play,
//! and loading a station's tracks.
use std::time::Duration;
use vstd::prelude::*;
use vstd::string::*;

use crate::api::{
    get_outcome, is_session_request, post_outcome, session_url, station_id_of,
    station_tracks_url, stations_url, ApiError, ApiErrorView, HttpClient, StationView,
    TrackSummary, TrackView, WaveStation, YandexMusicClient,
};
use crate::json::JsonValue;
use crate::media_controls::SystemMediaCommand;
use crate::player::{
    apply_view, at_last, next_view, previous_view, PlaybackMode, PlayerCommand, PlayerState,
};
use crate::presentation::{is_permission_error, permission_error};
use crate::responses::{station_tracks_of, wave_stations_of, with_document};
use crate::auth::{extract_oauth_token_from_redirect, redirect_token_of};
use crate::text::{join_strings, join_with, str_equal, texts};

verus! {

/// The highest volume the slider offers, in percent.
pub const MAX_VOLUME_PERCENT: u8 = 150;

/// The volume kept for a slider value: at most `MAX_VOLUME_PERCENT`.
pub fn clamp_volume(volume_percent: u8) -> (r: u8)
    ensures
        r == if volume_percent <= MAX_VOLUME_PERCENT {
            volume_percent
        } else {
            MAX_VOLUME_PERCENT
        },
{
    if volume_percent <= MAX_VOLUME_PERCENT {
        volume_percent
    } else {
        MAX_VOLUME_PERCENT
    }
}

/// Where the queue came from.
#[derive(Debug, Clone, Copy, PartialEq, Eq, Structural)]
pub enum QueueSource {
    Favorites,
    Search,
    Wave,
}

/// The text of an optional string slice.
pub open spec fn opt_str(o: Option<&str>) -> Option<Seq<char>> {
    match o {
        Some(s) => Some(s@),
        None => None,
    }
}

/// Whether a change of audio output pauses: only while playing, and only
/// when the output really changed.
pub open spec fn pauses_for_output_change(
    previous: Option<Seq<char>>,
    current: Option<Seq<char>>,
    is_playing: bool,
) -> bool {
    is_playing && previous != current
}

/// Whether a change of audio output pauses.
pub fn should_pause_for_output_change(
    previous: Option<&str>,
    current: Option<&str>,
    is_playing: bool,
) -> (r: bool)
    ensures
        r == pauses_for_output_change(opt_str(previous), opt_str(current), is_playing),
{
    if !is_playing {
        return false;
    }
    match (previous, current) {
        (Some(p), Some(c)) => !str_equal(p, c),
        (None, None) => false,
        _ => true,
    }
}

/// Whether the loaded audio can simply resume: there is audio, and it is
/// that of the current track.
pub open spec fn resumable(loaded: Option<Seq<char>>, current: Option<TrackView>, has_audio: bool) -> bool {
    match (loaded, current) {
        (Some(l), Some(c)) => has_audio && c.id == l,
        _ => false,
    }
}

/// Whether the loaded audio can simply resume.
pub fn can_resume_track(
    loaded_track_id: Option<&str>,
    current: Option<&TrackSummary>,
    has_audio: bool,
) -> (r: bool)
    ensures
        r == resumable(
            opt_str(loaded_track_id),
            match current {
                Some(t) => Some(t.deep_view()),
                None => None,
            },
            has_audio,
        ),
{
    match (loaded_track_id, current) {
        (Some(l), Some(c)) => has_audio && str_equal(c.id.as_str(), l),
        _ => false,
    }
}

/// What the window does after a player command.
#[derive(Debug, Clone, Copy, PartialEq, Eq, Structural)]
pub enum PlayerAction {
    /// A track is being prepared; nothing changes.
    Busy,
    /// Pause the audio.
    PauseAudio,
    /// Resume the loaded audio.
    ResumeAudio,
    /// Fetch and play the current track.
    PlayCurrent,
    /// Load more of the station, playing on where `true`.
    LoadWave(bool),
    /// The current track moved; play it where `true`.
    Moved(bool),
}

/// What a player command does to the queue and what the window does next.
pub open spec fn command_step(
    player: crate::player::PlayerView,
    command: PlayerCommand,
    audio_busy: bool,
    source: QueueSource,
    can_resume: bool,
) -> (crate::player::PlayerView, PlayerAction) {
    if audio_busy {
        (player, PlayerAction::Busy)
    } else {
        match command {
            PlayerCommand::PlayPause => (
                apply_view(player, command),
                if player.playing {
                    PlayerAction::PauseAudio
                } else if can_resume {
                    PlayerAction::ResumeAudio
                } else {
                    PlayerAction::PlayCurrent
                },
            ),
            PlayerCommand::Next => if source == QueueSource::Wave && at_last(player) {
                (player, PlayerAction::LoadWave(player.playing))
            } else {
                (next_view(player), PlayerAction::Moved(player.playing))
            },
            PlayerCommand::Previous => (previous_view(player), PlayerAction::Moved(player.playing)),
        }
    }
}

/// Carries out a player command on the queue and says what to do next.
pub fn player_command_step(
    player: &mut PlayerState,
    command: PlayerCommand,
    audio_busy: bool,
    source: QueueSource,
    can_resume: bool,
) -> (r: PlayerAction)
    ensures
        (final(player)@, r) == command_step(old(player)@, command, audio_busy, source, can_resume),
{
    if audio_busy {
        return PlayerAction::Busy;
    }
    let should_continue = player.is_playing();
    match command {
        PlayerCommand::PlayPause => {
            player.apply(command);
            if should_continue {
                PlayerAction::PauseAudio
            } else if can_resume {
                PlayerAction::ResumeAudio
            } else {
                PlayerAction::PlayCurrent
            }
        },
        PlayerCommand::Next => {
            if source == QueueSource::Wave && player.is_current_track_last() {
                return PlayerAction::LoadWave(should_continue);
            }
            player.apply(command);
            PlayerAction::Moved(should_continue)
        },
        PlayerCommand::Previous => {
            player.apply(command);
            PlayerAction::Moved(should_continue)
        },
    }
}

/// What the window does when the audio may have run out.
#[derive(Debug, Clone, Copy, PartialEq, Eq, Structural)]
pub enum CompletionAction {
    /// Nothing ended, or nothing is to follow.
    Wait,
    /// The station's last track ended: load more of it and play on.
    LoadWave,
    /// Fetch and play the current track.
    PlayCurrent,
}

/// What the end of a track leads to.
pub open spec fn completion_step(
    player: crate::player::PlayerView,
    audio_busy: bool,
    audio_finished: bool,
    can_resume: bool,
    mode: PlaybackMode,
    source: QueueSource,
) -> (crate::player::PlayerView, CompletionAction) {
    if audio_busy || !player.playing || !audio_finished || !can_resume {
        (player, CompletionAction::Wait)
    } else {
        match mode {
            PlaybackMode::Continue => if source == QueueSource::Wave && at_last(player) {
                (player, CompletionAction::LoadWave)
            } else {
                (next_view(player), CompletionAction::PlayCurrent)
            },
            PlaybackMode::RepeatOne => (player, CompletionAction::PlayCurrent),
        }
    }
}

/// Moves on when the current track has ended and says what to do next.
pub fn playback_completion_step(
    player: &mut PlayerState,
    audio_busy: bool,
    audio_finished: bool,
    can_resume: bool,
    mode: PlaybackMode,
    source: QueueSource,
) -> (r: CompletionAction)
    ensures
        (final(player)@, r) == completion_step(
            old(player)@,
            audio_busy,
            audio_finished,
            can_resume,
            mode,
            source,
        ),
{
    if audio_busy || !player.is_playing() || !audio_finished || !can_resume {
        return CompletionAction::Wait;
    }
    match mode {
        PlaybackMode::Continue => {
            if source == QueueSource::Wave && player.is_current_track_last() {
                return CompletionAction::LoadWave;
            }
            player.next();
            CompletionAction::PlayCurrent
        },
        PlaybackMode::RepeatOne => CompletionAction::PlayCurrent,
    }
}

/// What a command of the system's media controls leads to.
#[derive(Debug, Clone, Copy, PartialEq, Eq)]
pub enum MediaAction {
    Player(PlayerCommand),
    Seek(Duration),
    Nothing,
}

/// What a media-control command leads to: `Play` and `Pause` toggle only
/// where the player is not already in that state.
pub open spec fn media_step(command: SystemMediaCommand, is_playing: bool) -> MediaAction {
    match command {
        SystemMediaCommand::Player(c) => MediaAction::Player(c),
        SystemMediaCommand::Play => if !is_playing {
            MediaAction::Player(PlayerCommand::PlayPause)
        } else {
            MediaAction::Nothing
        },
        SystemMediaCommand::Pause => if is_playing {
            MediaAction::Player(PlayerCommand::PlayPause)
        } else {
            MediaAction::Nothing
        },
        SystemMediaCommand::Seek(p) => MediaAction::Seek(p),
    }
}

/// What a media-control command leads to.
pub fn system_media_step(command: SystemMediaCommand, is_playing: bool) -> (r: MediaAction)
    ensures
        r == media_step(command, is_playing),
{
    match command {
        SystemMediaCommand::Player(c) => MediaAction::Player(c),
        SystemMediaCommand::Play => if !is_playing {
            MediaAction::Player(PlayerCommand::PlayPause)
        } else {
            MediaAction::Nothing
        },
        SystemMediaCommand::Pause => if is_playing {
            MediaAction::Player(PlayerCommand::PlayPause)
        } else {
            MediaAction::Nothing
        },
        SystemMediaCommand::Seek(p) => MediaAction::Seek(p),
    }
}

} // verus!

verus! {

/// Next and previous, while no track is being prepared and no more of the
/// station is due, move the queue as the player does and play the track
/// they reach exactly when the player was playing before.
pub proof fn moves_play_on_exactly_when_playing(
    player: crate::player::PlayerView,
    command: PlayerCommand,
    source: QueueSource,
    can_resume: bool,
)
    requires
        command != PlayerCommand::PlayPause,
        !(command == PlayerCommand::Next && source == QueueSource::Wave && at_last(player)),
    ensures
        command_step(player, command, false, source, can_resume) == (
            apply_view(player, command),
            PlayerAction::Moved(player.playing),
        ),
        command_step(player, command, false, source, can_resume).0.playing == player.playing,
{
}

/// Next on the last track of a station loads more of it, keeping the queue,
/// and plays on exactly when the player was playing.
pub proof fn next_at_the_station_end_loads_more(
    player: crate::player::PlayerView,
    can_resume: bool,
)
    requires
        at_last(player),
    ensures
        command_step(player, PlayerCommand::Next, false, QueueSource::Wave, can_resume) == (
            player,
            PlayerAction::LoadWave(player.playing),
        ),
{
}

/// While a track is being prepared, no command changes anything.
pub proof fn busy_audio_ignores_commands(
    player: crate::player::PlayerView,
    command: PlayerCommand,
    source: QueueSource,
    can_resume: bool,
)
    ensures
        command_step(player, command, true, source, can_resume) == (player, PlayerAction::Busy),
{
}

/// In repeat-one mode a finished track is played again, the queue left as it
/// is, whatever the queue's source or position.
pub proof fn repeat_one_replays_the_finished_track(
    player: crate::player::PlayerView,
    source: QueueSource,
)
    requires
        player.playing,
    ensures
        completion_step(player, false, true, true, PlaybackMode::RepeatOne, source) == (
            player,
            CompletionAction::PlayCurrent,
        ),
{
}

/// In continue mode a finished track is followed by the next one, except
/// that the last track of a station loads more of it.
pub proof fn continue_moves_to_the_next_track(
    player: crate::player::PlayerView,
    source: QueueSource,
)
    requires
        player.playing,
    ensures
        completion_step(player, false, true, true, PlaybackMode::Continue, source) == if source
            == QueueSource::Wave && at_last(player) {
            (player, CompletionAction::LoadWave)
        } else {
            (next_view(player), CompletionAction::PlayCurrent)
        },
{
}

/// Nothing happens while a track is prepared, while paused, before the audio
/// ended, or when the loaded audio is not the current track's.
pub proof fn unfinished_playback_waits(
    player: crate::player::PlayerView,
    audio_busy: bool,
    audio_finished: bool,
    can_resume: bool,
    mode: PlaybackMode,
    source: QueueSource,
)
    requires
        audio_busy || !player.playing || !audio_finished || !can_resume,
    ensures
        completion_step(player, audio_busy, audio_finished, can_resume, mode, source) == (
            player,
            CompletionAction::Wait,
        ),
{
}

/// The non-empty addresses among the script results, in order.
pub open spec fn found_urls(results: Seq<Result<String, String>>) -> Seq<Seq<char>>
    decreases results.len(),
{
    if results.len() == 0 {
        seq![]
    } else {
        let rest = found_urls(results.drop_last());
        match results.last() {
            Ok(u) => if u@.len() > 0 {
                rest.push(u@)
            } else {
                rest
            },
            Err(_) => rest,
        }
    }
}

/// The errors among the script results, in order.
pub open spec fn script_errors(results: Seq<Result<String, String>>) -> Seq<Seq<char>>
    decreases results.len(),
{
    if results.len() == 0 {
        seq![]
    } else {
        let rest = script_errors(results.drop_last());
        match results.last() {
            Ok(_) => rest,
            Err(e) => rest.push(e@),
        }
    }
}

/// The addresses the browsers show; an error only where no browser showed
/// one and every script failed for want of permission.
pub open spec fn browser_urls_of(results: Seq<Result<String, String>>) -> Result<
    Seq<Seq<char>>,
    Seq<char>,
> {
    let urls = found_urls(results);
    let errors = script_errors(results);
    if urls.len() == 0 && errors.len() > 0 && forall|i: int|
        0 <= i < errors.len() ==> #[trigger] permission_error(errors[i]) {
        Err(join_with(errors, "; "@))
    } else {
        Ok(urls)
    }
}

/// Gathers the addresses that the browser scripts returned.
pub fn collect_browser_urls(results: &Vec<Result<String, String>>) -> (r: Result<Vec<String>, String>)
    ensures
        match r {
            Ok(urls) => browser_urls_of(results@) == Ok::<Seq<Seq<char>>, Seq<char>>(
                texts(urls@),
            ),
            Err(e) => browser_urls_of(results@) == Err::<Seq<Seq<char>>, Seq<char>>(e@),
        },
{
    let mut urls: Vec<String> = Vec::new();
    let mut errors: Vec<String> = Vec::new();
    let mut i: usize = 0;
    while i < results.len()
        invariant
            i <= results.len(),
            texts(urls@) == found_urls(results@.take(i as int)),
            texts(errors@) == script_errors(results@.take(i as int)),
        decreases results.len() - i,
    {
        assert(results@.take(i + 1).drop_last() =~= results@.take(i as int));
        match &results[i] {
            Ok(u) => {
                if !u.as_str().is_empty() {
                    urls.push(u.clone());
                }
            },
            Err(e) => {
                errors.push(e.clone());
            },
        }
        i = i + 1;
    }
    assert(results@.take(results.len() as int) =~= results@);
    if urls.len() == 0 && errors.len() > 0 {
        let mut all = true;
        let mut k: usize = 0;
        while k < errors.len()
            invariant
                k <= errors.len(),
                all == forall|j: int| 0 <= j < k ==> #[trigger] permission_error(errors@[j]@),
            decreases errors.len() - k,
        {
            if !is_permission_error(errors[k].as_str()) {
                all = false;
            }
            k = k + 1;
        }
        assert(all == forall|j: int|
            0 <= j < texts(errors@).len() ==> #[trigger] permission_error(texts(errors@)[j])) by {
            if !all {
                let j = choose|j: int| 0 <= j < errors@.len() && !permission_error(errors@[j]@);
                assert(texts(errors@)[j] == errors@[j]@);
            }
        }
        if all {
            return Err(join_strings(&errors, "; "));
        }
    }
    Ok(urls)
}

/// What one look at the browser's addresses comes to while waiting for a
/// token.
pub enum TokenWatch {
    /// A token was found.
    Captured(String),
    /// Waiting ends with this message.
    Failed(String),
    /// Look again later.
    Retry,
}

/// The token of the first address, from `i` on, that carries one.
pub open spec fn first_redirect_token(urls: Seq<Seq<char>>, i: int) -> Option<Seq<char>>
    decreases urls.len() - i,
{
    if i < 0 || i >= urls.len() {
        None
    } else {
        match redirect_token_of(urls[i]) {
            Some(t) => Some(t),
            None => first_redirect_token(urls, i + 1),
        }
    }
}

/// The message where the browser's addresses could not be read.
pub open spec fn unreadable_browser_text(error: Seq<char>) -> Seq<char> {
    "Не смог прочитать URL браузера: "@ + error + ". Можно вставить redirect URL вручную."@
}

/// The message where no token came before the time ran out.
pub open spec fn token_timeout_text() -> Seq<char> {
    "Не дождался access_token из браузера. Вставьте redirect URL вручную."@
}

/// One look at the browser while waiting for a token: once the time is
/// out, waiting fails; an error reading the addresses fails it too; the
/// first address carrying a token gives that token; else look again.
pub fn token_watch_step(urls: Result<Vec<String>, String>, timed_out: bool) -> (r: TokenWatch)
    ensures
        match r {
            TokenWatch::Captured(t) => !timed_out && (urls matches Ok(u) && first_redirect_token(
                texts(u@),
                0,
            ) == Some(t@)),
            TokenWatch::Failed(m) => if timed_out {
                m@ == token_timeout_text()
            } else {
                urls matches Err(e) && m@ == unreadable_browser_text(e@)
            },
            TokenWatch::Retry => !timed_out && (urls matches Ok(u) && first_redirect_token(
                texts(u@),
                0,
            ) is None),
        },
{
    if timed_out {
        return TokenWatch::Failed(
            String::from_str("Не дождался access_token из браузера. Вставьте redirect URL вручную."),
        );
    }
    match &urls {
        Err(e) => {
            let mut m = String::from_str("Не смог прочитать URL браузера: ");
            m.append(e.as_str());
            m.append(". Можно вставить redirect URL вручную.");
            TokenWatch::Failed(m)
        },
        Ok(u) => {
            let ghost all = texts(u@);
            let mut i: usize = 0;
            while i < u.len()
                invariant
                    i <= u.len(),
                    !timed_out,
                    urls == Ok::<Vec<String>, String>(*u),
                    all == texts(u@),
                    first_redirect_token(all, 0) == first_redirect_token(all, i as int),
                decreases u.len() - i,
            {
                assert(all[i as int] == u@[i as int]@);
                match extract_oauth_token_from_redirect(u[i].as_str()) {
                    Some(t) => {
                        assert(first_redirect_token(all, i as int) == Some(t@));
                        return TokenWatch::Captured(t);
                    },
                    None => {},
                }
                i = i + 1;
            }
            TokenWatch::Retry
        },
    }
}

/// The first station tagged `onyourwave`, else the first station.
pub open spec fn my_wave_index(stations: Seq<StationView>) -> Option<int> {
    match tag_index(stations, "onyourwave"@, 0) {
        Some(i) => Some(i),
        None => if stations.len() > 0 {
            Some(0)
        } else {
            None
        },
    }
}

/// The first station at or after `i` with the given tag.
pub open spec fn tag_index(stations: Seq<StationView>, tag: Seq<char>, i: int) -> Option<int>
    decreases stations.len() - i,
{
    if i < 0 || i >= stations.len() {
        None
    } else if stations[i].tag == tag {
        Some(i)
    } else {
        tag_index(stations, tag, i + 1)
    }
}

/// The station to play: the chosen one, else "My wave", else the first.
pub open spec fn picked_station(selected: Option<StationView>, stations: Seq<StationView>) -> Option<
    StationView,
> {
    match selected {
        Some(s) => Some(s),
        None => match my_wave_index(stations) {
            Some(i) => Some(stations[i]),
            None => None,
        },
    }
}

/// The station "My wave", else the first station.
pub fn my_wave_station(stations: &Vec<WaveStation>) -> (r: Option<&WaveStation>)
    ensures
        match r {
            Some(s) => my_wave_index(stations.deep_view()) matches Some(i) && stations.deep_view()[i]
                == s.deep_view(),
            None => my_wave_index(stations.deep_view()) is None,
        },
{
    let mut i: usize = 0;
    while i < stations.len()
        invariant
            i <= stations.len(),
            tag_index(stations.deep_view(), "onyourwave"@, 0) == tag_index(
                stations.deep_view(),
                "onyourwave"@,
                i as int,
            ),
        decreases stations.len() - i,
    {
        if str_equal(stations[i].tag.as_str(), "onyourwave") {
            return Some(&stations[i]);
        }
        i = i + 1;
    }
    if stations.len() > 0 {
        Some(&stations[0])
    } else {
        None
    }
}

/// A copy of a station.
pub fn copy_station(s: &WaveStation) -> (r: WaveStation)
    ensures
        r.deep_view() == s.deep_view(),
{
    WaveStation { station_type: s.station_type.clone(), tag: s.tag.clone(), name: s.name.clone() }
}

/// The stations and the tracks of the station to play.
pub struct WaveData {
    pub station: Option<WaveStation>,
    pub stations: Vec<WaveStation>,
    pub tracks: Vec<TrackSummary>,
    /// How the tracks were obtained.
    pub diagnostics: String,
}

/// `WaveData` as plain values.
pub struct WaveView {
    pub station: Option<StationView>,
    pub stations: Seq<StationView>,
    pub tracks: Seq<TrackView>,
    pub diagnostics: Seq<char>,
}

impl DeepView for WaveData {
    type V = WaveView;

    open spec fn deep_view(&self) -> WaveView {
        WaveView {
            station: self.station.deep_view(),
            stations: self.stations.deep_view(),
            tracks: self.tracks.deep_view(),
            diagnostics: self.diagnostics@,
        }
    }
}

/// An optional station as plain values.
pub open spec fn opt_station(o: Option<WaveStation>) -> Option<StationView> {
    match o {
        Some(s) => Some(s.deep_view()),
        None => None,
    }
}

/// Reading a station-list answer.
pub open spec fn read_stations() -> spec_fn(Seq<char>) -> Result<Seq<StationView>, ApiErrorView> {
    |b: Seq<char>|
        with_document(
            b,
            |v: JsonValue| Ok::<Seq<StationView>, ApiErrorView>(wave_stations_of(v)),
        )
}

/// Reading a station or session answer.
pub open spec fn read_station_tracks() -> spec_fn(Seq<char>) -> Result<Seq<TrackView>, ApiErrorView> {
    |b: Seq<char>| with_document(b, |v: JsonValue| station_tracks_of(v))
}

/// Whether opening a session on the station can have given `tracks`.
pub open spec fn session_gave<H: HttpClient>(
    client: YandexMusicClient<H>,
    station: StationView,
    tracks: Seq<TrackView>,
) -> bool {
    exists|request: JsonValue|
        #[trigger] is_session_request(request, station_id_of(station)) && post_outcome(
            client.transport(),
            session_url(),
            client.token_view(),
            request,
            read_station_tracks(),
            Ok::<Seq<TrackView>, ApiErrorView>(tracks),
        )
}

/// Whether asking a station's own tracks can have led to `res`.
pub open spec fn own_outcome<H: HttpClient>(
    client: YandexMusicClient<H>,
    station_id: Seq<char>,
    res: Result<Seq<TrackView>, ApiErrorView>,
) -> bool {
    get_outcome(
        client.transport(),
        station_tracks_url(station_id),
        client.token_view(),
        read_station_tracks(),
        res,
    )
}

/// What holds of loaded station data: the stations are the answer of the
/// station list; the station is the chosen one, else "My wave", else the
/// first; and the tracks are the station's own where it has some, else
/// those of a new session, as the diagnostics say.
pub open spec fn wave_data_fits<H: HttpClient>(
    client: YandexMusicClient<H>,
    selected: Option<StationView>,
    d: WaveData,
) -> bool {
    &&& get_outcome(
        client.transport(),
        stations_url(),
        client.token_view(),
        read_stations(),
        Ok::<Seq<StationView>, ApiErrorView>(d.stations.deep_view()),
    )
    &&& opt_station(d.station) == picked_station(selected, d.stations.deep_view())
    &&& match d.station {
        None => d.tracks@.len() == 0 && d.diagnostics@ == "stations empty"@,
        Some(s) => {
            let id = station_id_of(s.deep_view());
            let prefix = "station "@ + id + ", station tracks "@;
            ||| (d.tracks@.len() > 0 && d.diagnostics@ == prefix + "ok"@ && own_outcome(client, id, Ok(d.tracks.deep_view())))
            ||| (d.diagnostics@ == prefix + "empty, session fallback ok"@ && own_outcome(client, id, Ok(seq![]))
                && session_gave(client, s.deep_view(), d.tracks.deep_view()))
            ||| exists|e: ApiErrorView|
                #[trigger] own_outcome(client, id, Err(e)) && d.diagnostics@ == prefix + "failed: "@
                    + crate::api::error_message(e) + ", session fallback ok"@ && session_gave(
                    client,
                    s.deep_view(),
                    d.tracks.deep_view(),
                )
        },
    }
}

/// Whether opening a session on the station can have failed with `e`.
pub open spec fn session_failed<H: HttpClient>(
    client: YandexMusicClient<H>,
    station: StationView,
    e: ApiErrorView,
) -> bool {
    exists|request: JsonValue|
        #[trigger] is_session_request(request, station_id_of(station)) && post_outcome(
            client.transport(),
            session_url(),
            client.token_view(),
            request,
            read_station_tracks(),
            Err::<Seq<TrackView>, ApiErrorView>(e),
        )
}

/// Whether the station list can have come back as `stations`.
pub open spec fn stations_answered<H: HttpClient>(
    client: YandexMusicClient<H>,
    stations: Seq<StationView>,
) -> bool {
    get_outcome(
        client.transport(),
        stations_url(),
        client.token_view(),
        read_stations(),
        Ok::<Seq<StationView>, ApiErrorView>(stations),
    )
}

/// What holds where loading station data failed with `e`: the station list
/// failed so; or a station was picked, its own tracks were none or failed,
/// and opening a session on it failed so.
pub open spec fn wave_failure_fits<H: HttpClient>(
    client: YandexMusicClient<H>,
    selected: Option<StationView>,
    e: ApiErrorView,
) -> bool {
    ||| get_outcome(
        client.transport(),
        stations_url(),
        client.token_view(),
        read_stations(),
        Err::<Seq<StationView>, ApiErrorView>(e),
    )
    ||| exists|stations: Seq<StationView>|
        #[trigger] stations_answered(client, stations) && match picked_station(selected, stations) {
            None => false,
            Some(s) => {
                let id = station_id_of(s);
                &&& (own_outcome(client, id, Ok(seq![])) || exists|e2: ApiErrorView|
                    #[trigger] own_outcome(client, id, Err(e2)))
                &&& session_failed(client, s, e)
            },
        }
}

/// Loads the station list and the tracks of the station to play: the
/// station's own tracks, or where it has none or they fail to load, those
/// of a new session on it.
pub fn load_wave_data<H: HttpClient>(
    client: &YandexMusicClient<H>,
    selected: Option<WaveStation>,
) -> (r: Result<WaveData, ApiError>)
    ensures
        match r {
            Ok(d) => wave_data_fits(*client, opt_station(selected), d),
            Err(e) => wave_failure_fits(*client, opt_station(selected), e@),
        },
{
    let stations = match client.wave_stations() {
        Ok(s) => s,
        Err(e) => return Err(e),
    };
    let station = match selected {
        Some(s) => s,
        None => match my_wave_station(&stations) {
            Some(s) => copy_station(s),
            None => {
                let none: Vec<TrackSummary> = Vec::new();
                let d = WaveData {
                    station: None,
                    stations,
                    tracks: none,
                    diagnostics: String::from_str("stations empty"),
                };
                return Ok(d);
            },
        },
    };
    let label = crate::api::station_id(&station);
    let mut diagnostics = String::from_str("station ");
    diagnostics.append(label.as_str());
    diagnostics.append(", station tracks ");
    let ghost prefix = diagnostics@;
    let ghost sv = station.deep_view();
    proof {
        assert(stations_answered(*client, stations.deep_view()));
    }
    let own = client.station_tracks(&station);
    match own {
        Ok(tracks) => {
            if tracks.len() > 0 {
                diagnostics.append("ok");
                return Ok(WaveData { station: Some(station), stations, tracks, diagnostics });
            }
            assert(tracks.deep_view() =~= Seq::<TrackView>::empty());
            let session = match client.station_session_tracks(&station) {
                Ok(t) => t,
                Err(e) => {
                    return Err(e);
                },
            };
            diagnostics.append("empty, session fallback ok");
            Ok(WaveData { station: Some(station), stations, tracks: session, diagnostics })
        },
        Err(err) => {
            let message = err.message();
            assert(own_outcome(*client, station_id_of(sv), Err(err@)));
            let session = match client.station_session_tracks(&station) {
                Ok(t) => t,
                Err(e) => {
                    return Err(e);
                },
            };
            diagnostics.append("failed: ");
            diagnostics.append(message.as_str());
            diagnostics.append(", session fallback ok");
            assert(diagnostics@ =~= prefix + "failed: "@ + crate::api::error_message(err@)
                + ", session fallback ok"@);
            Ok(WaveData { station: Some(station), stations, tracks: session, diagnostics })
        },
    }
}

} // verus!
