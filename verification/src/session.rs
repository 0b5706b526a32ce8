//! What the window holds of the account, the track lists and the queue, and
//! how the answers of the service change it.
use vstd::prelude::*;
use vstd::string::*;

use crate::api::{
    copy_track, copy_tracks, AccountStatus, AccountView, StationView, TrackSummary, TrackView, WaveStation,
};
use crate::controller::{
    copy_station, my_wave_index, my_wave_station, opt_str, pauses_for_output_change,
    should_pause_for_output_change, QueueSource, WaveData, WaveView,
};
use crate::player::{current_summary, queue_label, start_index, PlayerState, PlayerView};
use crate::presentation::{opt_text, same_station, same_station_view};
use crate::text::{decimal, join_strings, join_with, push_decimal, texts};

verus! {

/// The account, the lists and the queue that the window shows.
pub struct Session {
    pub account: Option<AccountStatus>,
    pub favorites: Vec<TrackSummary>,
    pub search_results: Vec<TrackSummary>,
    pub wave_stations: Vec<WaveStation>,
    pub active_wave_station: Option<WaveStation>,
    pub wave_tracks: Vec<TrackSummary>,
    pub player: PlayerState,
    pub queue_source: QueueSource,
    /// The track whose audio is loaded, where there is one.
    pub loaded_audio_track_id: Option<String>,
    pub status: String,
    /// Whether a request to the service is under way.
    pub busy: bool,
}

/// `Session` as plain values.
pub struct SessionView {
    pub account: Option<AccountView>,
    pub favorites: Seq<TrackView>,
    pub search_results: Seq<TrackView>,
    pub wave_stations: Seq<StationView>,
    pub active_wave_station: Option<StationView>,
    pub wave_tracks: Seq<TrackView>,
    pub player: PlayerView,
    pub queue_source: QueueSource,
    pub loaded_audio_track_id: Option<Seq<char>>,
    pub status: Seq<char>,
    pub busy: bool,
}

impl DeepView for Session {
    type V = SessionView;

    open spec fn deep_view(&self) -> SessionView {
        SessionView {
            account: self.account.deep_view(),
            favorites: self.favorites.deep_view(),
            search_results: self.search_results.deep_view(),
            wave_stations: self.wave_stations.deep_view(),
            active_wave_station: self.active_wave_station.deep_view(),
            wave_tracks: self.wave_tracks.deep_view(),
            player: self.player@,
            queue_source: self.queue_source,
            loaded_audio_track_id: match self.loaded_audio_track_id {
                Some(id) => Some(id@),
                None => None,
            },
            status: self.status@,
            busy: self.busy,
        }
    }
}

/// The queue made of these tracks: at its start, paused.
pub open spec fn queue_of(tracks: Seq<TrackView>) -> PlayerView {
    PlayerView {
        queue: tracks.map_values(|t: TrackView| queue_label(t)),
        tracks,
        current: start_index(tracks.len() as int),
        playing: false,
    }
}

/// The session before anything was loaded.
pub open spec fn empty_session() -> SessionView {
    SessionView {
        account: None,
        favorites: seq![],
        search_results: seq![],
        wave_stations: seq![],
        active_wave_station: None,
        wave_tracks: seq![],
        player: PlayerView { queue: seq![], tracks: seq![], current: None, playing: false },
        queue_source: QueueSource::Favorites,
        loaded_audio_track_id: None,
        status: seq![],
        busy: false,
    }
}

/// A list of tracks or the text of what went wrong, as plain values.
pub open spec fn tracks_result(r: Result<Vec<TrackSummary>, String>) -> Result<Seq<TrackView>, Seq<char>> {
    match r {
        Ok(ts) => Ok(ts.deep_view()),
        Err(e) => Err(e@),
    }
}

/// Loaded station data or the text of what went wrong, as plain values.
pub open spec fn wave_result(r: Result<WaveData, String>) -> Result<WaveView, Seq<char>> {
    match r {
        Ok(d) => Ok(d.deep_view()),
        Err(e) => Err(e@),
    }
}

/// The status after liked tracks arrived.
pub open spec fn favorites_status(count: nat) -> Seq<char> {
    "Загружено любимых треков: "@ + decimal(count)
}

/// The status after a search.
pub open spec fn search_status(count: nat) -> Seq<char> {
    "Найдено треков: "@ + decimal(count)
}

/// The status after station data arrived.
pub open spec fn wave_status(w: WaveView) -> Seq<char> {
    "Волна: "@ + decimal(w.tracks.len()) + " треков, станций: "@ + decimal(w.stations.len())
        + " ("@ + w.diagnostics + ")"@
}

/// Liked tracks arrived: they become the queue, from its start.
pub open spec fn favorites_applied(s: SessionView, r: Result<Seq<TrackView>, Seq<char>>) -> SessionView {
    match r {
        Ok(ts) => SessionView {
            status: favorites_status(ts.len()),
            player: queue_of(ts),
            queue_source: QueueSource::Favorites,
            favorites: ts,
            loaded_audio_track_id: None,
            busy: false,
            ..s
        },
        Err(e) => SessionView { status: e, busy: false, ..s },
    }
}

/// Search results arrived.
pub open spec fn search_applied(s: SessionView, r: Result<Seq<TrackView>, Seq<char>>) -> SessionView {
    match r {
        Ok(ts) => SessionView { status: search_status(ts.len()), search_results: ts, busy: false, ..s },
        Err(e) => SessionView { status: e, busy: false, ..s },
    }
}

/// What the window does once station data arrived.
#[derive(Debug, Clone, Copy, PartialEq, Eq, Structural)]
pub enum AfterWave {
    /// Nothing arrived: only the status changed.
    Nothing,
    /// Tell the system's media controls about the queue.
    Refresh,
    /// Fetch and play the current track, then tell the media controls.
    PlayAndRefresh,
}

/// Station data arrived: where it has tracks they become the queue, playing
/// where asked to.
pub open spec fn wave_applied(s: SessionView, r: Result<WaveView, Seq<char>>, autoplay: bool) -> (
    SessionView,
    AfterWave,
) {
    match r {
        Ok(w) => {
            let has_tracks = w.tracks.len() > 0;
            (
                SessionView {
                    status: wave_status(w),
                    player: if has_tracks {
                        PlayerView { playing: autoplay, ..queue_of(w.tracks) }
                    } else {
                        s.player
                    },
                    queue_source: if has_tracks {
                        QueueSource::Wave
                    } else {
                        s.queue_source
                    },
                    loaded_audio_track_id: if has_tracks {
                        None
                    } else {
                        s.loaded_audio_track_id
                    },
                    active_wave_station: w.station,
                    wave_stations: w.stations,
                    wave_tracks: w.tracks,
                    busy: false,
                    ..s
                },
                if has_tracks && autoplay {
                    AfterWave::PlayAndRefresh
                } else {
                    AfterWave::Refresh
                },
            )
        },
        Err(e) => (SessionView { status: e, busy: false, ..s }, AfterWave::Nothing),
    }
}

/// What signing in brought: the account, and the liked tracks and station
/// data, each loaded or failed on its own.
pub struct BootstrapData {
    pub account: AccountStatus,
    pub favorites: Result<Vec<TrackSummary>, String>,
    pub wave: Result<WaveData, String>,
}

/// The parts of the status after signing in.
pub open spec fn bootstrap_parts(
    account: AccountView,
    favorites: Result<Seq<TrackView>, Seq<char>>,
    wave: Result<WaveView, Seq<char>>,
    save_error: Option<Seq<char>>,
) -> Seq<Seq<char>> {
    let first = seq!["Аккаунт: "@ + account.display_name];
    let with_favorites = match favorites {
        Ok(ts) => first.push("любимых: "@ + decimal(ts.len())),
        Err(e) => first.push("любимое не загрузилось: "@ + e),
    };
    let with_wave = match wave {
        Ok(w) => with_favorites.push(
            "волна: "@ + decimal(w.tracks.len()) + " треков, "@ + decimal(w.stations.len())
                + " станций"@,
        ),
        Err(e) => with_favorites.push("волна не загрузилась: "@ + e),
    };
    match save_error {
        Some(e) => with_wave.push("config не сохранён: "@ + e),
        None => with_wave,
    }
}

/// After signing in: liked tracks become the queue where there are some,
/// else the station's tracks where there are some.
pub open spec fn bootstrap_applied(
    s: SessionView,
    account: AccountView,
    favorites: Result<Seq<TrackView>, Seq<char>>,
    wave: Result<WaveView, Seq<char>>,
    save_error: Option<Seq<char>>,
) -> SessionView {
    let after_favorites = match favorites {
        Ok(ts) => if ts.len() > 0 {
            SessionView {
                player: queue_of(ts),
                queue_source: QueueSource::Favorites,
                loaded_audio_track_id: None,
                favorites: ts,
                ..s
            }
        } else {
            SessionView { favorites: ts, ..s }
        },
        Err(_) => s,
    };
    let after_wave = match wave {
        Ok(w) => {
            let takes_queue = after_favorites.favorites.len() == 0 && w.tracks.len() > 0;
            SessionView {
                player: if takes_queue {
                    queue_of(w.tracks)
                } else {
                    after_favorites.player
                },
                queue_source: if takes_queue {
                    QueueSource::Wave
                } else {
                    after_favorites.queue_source
                },
                loaded_audio_track_id: if takes_queue {
                    None
                } else {
                    after_favorites.loaded_audio_track_id
                },
                active_wave_station: w.station,
                wave_stations: w.stations,
                wave_tracks: w.tracks,
                ..after_favorites
            }
        },
        Err(_) => after_favorites,
    };
    SessionView {
        account: Some(account),
        status: join_with(bootstrap_parts(account, favorites, wave, save_error), "; "@),
        busy: false,
        ..after_wave
    }
}

/// A failed request: its error becomes the status.
pub open spec fn failure_applied(s: SessionView, error: Seq<char>) -> SessionView {
    SessionView { status: error, busy: false, ..s }
}

/// The status once a track's audio plays.
pub open spec fn playing_status() -> Seq<char> {
    "Воспроизведение"@
}

/// The status after the audio output changed during playback.
pub open spec fn output_changed_status() -> Seq<char> {
    "Аудиовывод изменился. Поставил паузу."@
}

/// The status after choosing a position the list does not have.
pub open spec fn selection_failed_status() -> Seq<char> {
    "Не смог выбрать трек"@
}

/// The status after choosing a track.
pub open spec fn selected_status(label: Seq<char>) -> Seq<char> {
    "Выбрано: "@ + label
}

/// Choosing position `index` of `tracks`, from `source`: the list becomes the
/// queue, and where it has that position, it plays from there.
pub open spec fn selection_applied(
    s: SessionView,
    tracks: Seq<TrackView>,
    index: int,
    source: QueueSource,
) -> SessionView {
    if 0 <= index < tracks.len() {
        SessionView {
            player: PlayerView { current: Some(index), playing: true, ..queue_of(tracks) },
            queue_source: source,
            loaded_audio_track_id: None,
            status: selected_status(queue_label(tracks[index])),
            ..s
        }
    } else {
        SessionView {
            player: queue_of(tracks),
            queue_source: source,
            status: selection_failed_status(),
            ..s
        }
    }
}

/// How "My wave" starts: load its station (or nothing, where no station is
/// known), or play the tracks already loaded for it.
pub enum MyWavePlan {
    Load(Option<WaveStation>),
    PlayLoaded,
}

/// The station "My wave" plays: the one tagged `onyourwave`, else the first.
pub open spec fn my_wave_of(stations: Seq<StationView>) -> Option<StationView> {
    match my_wave_index(stations) {
        Some(i) => Some(stations[i]),
        None => None,
    }
}

/// Whether "My wave" is loaded already: its station is the active one and
/// has tracks.
pub open spec fn my_wave_loaded(s: SessionView) -> bool {
    match (my_wave_of(s.wave_stations), s.active_wave_station) {
        (Some(m), Some(a)) => same_station_view(a, m) && s.wave_tracks.len() > 0,
        _ => false,
    }
}

/// The status while a track's audio is fetched.
pub open spec fn preparing_status(t: TrackView) -> Seq<char> {
    "Готовлю: "@ + queue_label(t)
}

/// The status where there is no track to play.
pub open spec fn nothing_to_play_status() -> Seq<char> {
    "Сначала загрузите любимое и выберите трек"@
}

/// Asking to play the current track: without a token, or without a current
/// track, playback pauses; else that track is the one to fetch.
pub open spec fn fetch_applied(s: SessionView, has_token: bool) -> (SessionView, Option<TrackView>) {
    let paused = PlayerView { playing: false, ..s.player };
    if !has_token {
        (SessionView { player: paused, ..s }, None)
    } else {
        match current_summary(s.player) {
            None => (SessionView { status: nothing_to_play_status(), player: paused, ..s }, None),
            Some(t) => (SessionView { status: preparing_status(t), ..s }, Some(t)),
        }
    }
}

impl Session {
    /// A session with nothing loaded.
    pub fn new() -> (r: Self)
        ensures
            r.deep_view() == empty_session(),
    {
        let r = Session {
            account: None,
            favorites: Vec::new(),
            search_results: Vec::new(),
            wave_stations: Vec::new(),
            active_wave_station: None,
            wave_tracks: Vec::new(),
            player: PlayerState::default(),
            queue_source: QueueSource::Favorites,
            loaded_audio_track_id: None,
            status: String::new(),
            busy: false,
        };
        assert(r.wave_stations.deep_view() =~= Seq::<StationView>::empty());
        assert(r.wave_tracks.deep_view() =~= Seq::<TrackView>::empty());
        r
    }

    /// Forgets the account, the lists and the queue; keeps the status.
    pub fn reset(&mut self)
        ensures
            final(self).deep_view() == (SessionView { status: old(self).status@, ..empty_session() }),
    {
        let status = self.status.clone();
        *self = Session::new();
        self.status = status;
    }

    /// A request failed with `error`.
    pub fn request_failed(&mut self, error: String)
        ensures
            final(self).deep_view() == failure_applied(old(self).deep_view(), error@),
    {
        self.status = error;
        self.busy = false;
    }

    /// Liked tracks arrived (or failed to); says whether the queue changed.
    pub fn favorites_loaded(&mut self, result: Result<Vec<TrackSummary>, String>) -> (changed: bool)
        ensures
            final(self).deep_view() == favorites_applied(old(self).deep_view(), tracks_result(result)),
            changed == result is Ok,
    {
        match result {
            Ok(tracks) => {
                let mut status = String::from_str("Загружено любимых треков: ");
                push_decimal(&mut status, tracks.len() as u64);
                self.status = status;
                self.player.set_tracks(copy_tracks(&tracks));
                self.queue_source = QueueSource::Favorites;
                self.favorites = tracks;
                self.loaded_audio_track_id = None;
                self.busy = false;
                true
            },
            Err(error) => {
                self.request_failed(error);
                false
            },
        }
    }

    /// Search results arrived (or failed to).
    pub fn search_loaded(&mut self, result: Result<Vec<TrackSummary>, String>)
        ensures
            final(self).deep_view() == search_applied(old(self).deep_view(), tracks_result(result)),
    {
        match result {
            Ok(tracks) => {
                let mut status = String::from_str("Найдено треков: ");
                push_decimal(&mut status, tracks.len() as u64);
                self.status = status;
                self.search_results = tracks;
                self.busy = false;
            },
            Err(error) => self.request_failed(error),
        }
    }

    /// Station data arrived (or failed to); says what the window does next.
    pub fn wave_loaded(&mut self, result: Result<WaveData, String>, autoplay: bool) -> (r: AfterWave)
        ensures
            (final(self).deep_view(), r) == wave_applied(
                old(self).deep_view(),
                wave_result(result),
                autoplay,
            ),
    {
        match result {
            Ok(data) => {
                let ghost w = data.deep_view();
                let mut status = String::from_str("Волна: ");
                push_decimal(&mut status, data.tracks.len() as u64);
                status.append(" треков, станций: ");
                push_decimal(&mut status, data.stations.len() as u64);
                status.append(" (");
                status.append(data.diagnostics.as_str());
                status.append(")");
                self.status = status;
                let has_tracks = data.tracks.len() > 0;
                if has_tracks {
                    self.player.set_tracks(copy_tracks(&data.tracks));
                    self.queue_source = QueueSource::Wave;
                    self.loaded_audio_track_id = None;
                    if autoplay {
                        self.player.play();
                    }
                }
                self.active_wave_station = data.station;
                self.wave_stations = data.stations;
                self.wave_tracks = data.tracks;
                self.busy = false;
                if has_tracks && autoplay {
                    AfterWave::PlayAndRefresh
                } else {
                    AfterWave::Refresh
                }
            },
            Err(error) => {
                self.request_failed(error);
                AfterWave::Nothing
            },
        }
    }

    /// Signing in succeeded: the account, with its liked tracks and station
    /// data; `save_error` is why the token could not be saved, if it could not.
    pub fn bootstrap_loaded(&mut self, data: BootstrapData, save_error: Option<String>)
        ensures
            final(self).deep_view() == bootstrap_applied(
                old(self).deep_view(),
                data.account.deep_view(),
                tracks_result(data.favorites),
                wave_result(data.wave),
                opt_text(save_error),
            ),
    {
        let ghost account_view = data.account.deep_view();
        let ghost favorites_view = tracks_result(data.favorites);
        let ghost wave_view = wave_result(data.wave);
        let ghost save_view = opt_text(save_error);
        let mut parts: Vec<String> = Vec::new();
        let mut first = String::from_str("Аккаунт: ");
        first.append(data.account.display_name.as_str());
        parts.push(first);
        match data.favorites {
            Ok(tracks) => {
                let mut part = String::from_str("любимых: ");
                push_decimal(&mut part, tracks.len() as u64);
                parts.push(part);
                if tracks.len() > 0 {
                    self.player.set_tracks(copy_tracks(&tracks));
                    self.queue_source = QueueSource::Favorites;
                    self.loaded_audio_track_id = None;
                }
                self.favorites = tracks;
            },
            Err(error) => {
                let mut part = String::from_str("любимое не загрузилось: ");
                part.append(error.as_str());
                parts.push(part);
            },
        }
        match data.wave {
            Ok(wave) => {
                let mut part = String::from_str("волна: ");
                push_decimal(&mut part, wave.tracks.len() as u64);
                part.append(" треков, ");
                push_decimal(&mut part, wave.stations.len() as u64);
                part.append(" станций");
                parts.push(part);
                if self.favorites.len() == 0 && wave.tracks.len() > 0 {
                    self.player.set_tracks(copy_tracks(&wave.tracks));
                    self.queue_source = QueueSource::Wave;
                    self.loaded_audio_track_id = None;
                }
                self.active_wave_station = wave.station;
                self.wave_stations = wave.stations;
                self.wave_tracks = wave.tracks;
            },
            Err(error) => {
                let mut part = String::from_str("волна не загрузилась: ");
                part.append(error.as_str());
                parts.push(part);
            },
        }
        match save_error {
            Some(error) => {
                let mut part = String::from_str("config не сохранён: ");
                part.append(error.as_str());
                parts.push(part);
            },
            None => {},
        }
        assert(texts(parts@) =~= bootstrap_parts(account_view, favorites_view, wave_view, save_view));
        self.status = join_strings(&parts, "; ");
        self.account = Some(data.account);
        self.busy = false;
    }

    /// The audio of a track started (`Ok` with its id) or failed to.
    pub fn audio_started(&mut self, result: Result<String, String>)
        ensures
            final(self).deep_view() == match result {
                Ok(id) => SessionView {
                    player: PlayerView { playing: true, ..old(self).player@ },
                    loaded_audio_track_id: Some(id@),
                    status: playing_status(),
                    ..old(self).deep_view()
                },
                Err(e) => SessionView {
                    player: PlayerView { playing: false, ..old(self).player@ },
                    status: e@,
                    ..old(self).deep_view()
                },
            },
    {
        match result {
            Ok(id) => {
                self.player.play();
                self.loaded_audio_track_id = Some(id);
                self.status = String::from_str("Воспроизведение");
            },
            Err(error) => {
                self.player.pause();
                self.status = error;
            },
        }
    }

    /// The audio output changed from `previous` to `current`; says whether
    /// playback paused.
    pub fn output_device_changed(&mut self, previous: Option<&str>, current: Option<&str>) -> (paused: bool)
        ensures
            paused == pauses_for_output_change(
                opt_str(previous),
                opt_str(current),
                old(self).player@.playing,
            ),
            final(self).deep_view() == if paused {
                SessionView {
                    player: PlayerView { playing: false, ..old(self).player@ },
                    status: output_changed_status(),
                    ..old(self).deep_view()
                }
            } else {
                old(self).deep_view()
            },
    {
        if should_pause_for_output_change(previous, current, self.player.is_playing()) {
            self.player.pause();
            self.status = String::from_str("Аудиовывод изменился. Поставил паузу.");
            true
        } else {
            false
        }
    }

    /// Makes `tracks` the queue, from `source`, and plays position `index`
    /// where it has one; says whether it does.
    pub fn select_from(&mut self, tracks: Vec<TrackSummary>, index: usize, source: QueueSource) -> (plays: bool)
        ensures
            plays == (index < tracks.len()),
            final(self).deep_view() == selection_applied(
                old(self).deep_view(),
                tracks.deep_view(),
                index as int,
                source,
            ),
    {
        self.player.set_tracks(tracks);
        self.queue_source = source;
        if !self.player.select_and_play(index) {
            self.status = String::from_str("Не смог выбрать трек");
            return false;
        }
        self.loaded_audio_track_id = None;
        match self.player.current_track() {
            Some(label) => {
                let mut status = String::from_str("Выбрано: ");
                status.append(label);
                self.status = status;
            },
            None => {},
        }
        true
    }

    /// The track whose audio is to be fetched now, where there is one;
    /// `has_token` says whether a token is at hand.
    pub fn track_to_fetch(&mut self, has_token: bool) -> (r: Option<TrackSummary>)
        ensures
            (final(self).deep_view(), r.deep_view()) == fetch_applied(old(self).deep_view(), has_token),
    {
        if !has_token {
            self.player.pause();
            return None;
        }
        let track = match self.player.current_track_summary() {
            Some(t) => copy_track(t),
            None => {
                self.status = String::from_str("Сначала загрузите любимое и выберите трек");
                self.player.pause();
                return None;
            },
        };
        let mut status = String::from_str("Готовлю: ");
        status.append(track.artist.as_str());
        status.append(" — ");
        status.append(track.title.as_str());
        assert(status@ =~= preparing_status(track.deep_view()));
        self.status = status;
        Some(track)
    }

    /// How "My wave" starts from here.
    pub fn my_wave_plan(&self) -> (r: MyWavePlan)
        ensures
            match r {
                MyWavePlan::PlayLoaded => my_wave_loaded(self.deep_view()),
                MyWavePlan::Load(station) => !my_wave_loaded(self.deep_view())
                    && station.deep_view() == my_wave_of(self.wave_stations.deep_view()),
            },
    {
        let station = match my_wave_station(&self.wave_stations) {
            Some(s) => Some(copy_station(s)),
            None => None,
        };
        let loaded = match (&station, &self.active_wave_station) {
            (Some(m), Some(a)) => same_station(a, m) && self.wave_tracks.len() > 0,
            _ => false,
        };
        if loaded {
            MyWavePlan::PlayLoaded
        } else {
            MyWavePlan::Load(station)
        }
    }
}

} // verus!
