//! The music service's records, its errors, and the client that asks it.
use vstd::prelude::*;
use vstd::string::*;

use crate::json::JsonValue;
use crate::download::{build_signed_mp3_url, download_info_of, parse_download_xml, signed_mp3_url};
use crate::responses::{
    account_of, account_status_from_body, download_source_from_body, download_source_of,
    liked_of, liked_tracks_from_body, search_results_from_body, search_results_of,
    station_tracks_from_body, station_tracks_of, track_list_from_body, track_list_of,
    wave_stations_from_body, wave_stations_of, with_document, LikedTracks, LikedView,
};
use crate::text::{decimal, form_encode, push_decimal, push_form_encoded, trim, trim_str};
use vstd::utf8::encode_utf8;

verus! {

/// What went wrong while asking the service.
#[derive(Debug)]
pub enum ApiError {
    Http(String),
    Parse(String),
    MissingField(&'static str),
}

/// `ApiError` as plain text.
pub enum ApiErrorView {
    Http(Seq<char>),
    Parse(Seq<char>),
    MissingField(Seq<char>),
}

impl View for ApiError {
    type V = ApiErrorView;

    open spec fn view(&self) -> ApiErrorView {
        match self {
            ApiError::Http(m) => ApiErrorView::Http(m@),
            ApiError::Parse(m) => ApiErrorView::Parse(m@),
            ApiError::MissingField(f) => ApiErrorView::MissingField(f@),
        }
    }
}

} // verus!

verus! {

/// The text `Display` gives for an error.
pub open spec fn error_message(e: ApiErrorView) -> Seq<char> {
    match e {
        ApiErrorView::Http(m) => "HTTP error: "@ + m,
        ApiErrorView::Parse(m) => "parse error: "@ + m,
        ApiErrorView::MissingField(f) => "missing field: "@ + f,
    }
}

impl ApiError {
    /// The text of this error, as it is shown to the user.
    pub fn message(&self) -> (r: String)
        ensures
            r@ == error_message(self@),
    {
        match self {
            ApiError::Http(m) => {
                let mut s = String::from_str("HTTP error: ");
                s.append(m.as_str());
                s
            },
            ApiError::Parse(m) => {
                let mut s = String::from_str("parse error: ");
                s.append(m.as_str());
                s
            },
            ApiError::MissingField(f) => {
                let mut s = String::from_str("missing field: ");
                s.append(f);
                s
            },
        }
    }
}

/// The signed-in account.
#[derive(Debug, Clone, PartialEq, Eq)]
pub struct AccountStatus {
    pub uid: u64,
    pub login: String,
    pub display_name: String,
}

/// `AccountStatus` as plain values.
pub struct AccountView {
    pub uid: u64,
    pub login: Seq<char>,
    pub display_name: Seq<char>,
}

impl DeepView for AccountStatus {
    type V = AccountView;

    open spec fn deep_view(&self) -> AccountView {
        AccountView { uid: self.uid, login: self.login@, display_name: self.display_name@ }
    }
}

/// A track as the lists show it.
#[derive(Debug, Clone, PartialEq, Eq)]
pub struct TrackSummary {
    pub id: String,
    pub album_id: Option<String>,
    pub title: String,
    pub artist: String,
}

/// `TrackSummary` as plain values.
pub struct TrackView {
    pub id: Seq<char>,
    pub album_id: Option<Seq<char>>,
    pub title: Seq<char>,
    pub artist: Seq<char>,
}

impl DeepView for TrackSummary {
    type V = TrackView;

    open spec fn deep_view(&self) -> TrackView {
        TrackView {
            id: self.id@,
            album_id: match self.album_id {
                Some(a) => Some(a@),
                None => None,
            },
            title: self.title@,
            artist: self.artist@,
        }
    }
}

/// A copy of a track.
pub fn copy_track(t: &TrackSummary) -> (r: TrackSummary)
    ensures
        r.deep_view() == t.deep_view(),
{
    TrackSummary {
        id: t.id.clone(),
        album_id: match &t.album_id {
            Some(a) => Some(a.clone()),
            None => None,
        },
        title: t.title.clone(),
        artist: t.artist.clone(),
    }
}

/// A copy of a list of tracks.
pub fn copy_tracks(ts: &Vec<TrackSummary>) -> (r: Vec<TrackSummary>)
    ensures
        r.deep_view() == ts.deep_view(),
{
    let mut out: Vec<TrackSummary> = Vec::new();
    let mut i: usize = 0;
    while i < ts.len()
        invariant
            i <= ts.len(),
            out.deep_view() == ts.deep_view().take(i as int),
        decreases ts.len() - i,
    {
        let ghost before = out.deep_view();
        let t = copy_track(&ts[i]);
        out.push(t);
        assert(out.deep_view() =~= before.push(ts[i as int].deep_view()));
        i = i + 1;
    }
    out
}

/// A radio station ("wave").
#[derive(Debug, Clone, PartialEq, Eq)]
pub struct WaveStation {
    pub station_type: String,
    pub tag: String,
    pub name: String,
}

/// `WaveStation` as plain values.
pub struct StationView {
    pub station_type: Seq<char>,
    pub tag: Seq<char>,
    pub name: Seq<char>,
}

impl DeepView for WaveStation {
    type V = StationView;

    open spec fn deep_view(&self) -> StationView {
        StationView { station_type: self.station_type@, tag: self.tag@, name: self.name@ }
    }
}

/// The address a track can be downloaded from.
#[derive(Debug, Clone, PartialEq, Eq)]
pub struct PlaybackUrl(String);

impl DeepView for PlaybackUrl {
    type V = Seq<char>;

    closed spec fn deep_view(&self) -> Seq<char> {
        self.0@
    }
}

impl PlaybackUrl {
    pub fn new(url: String) -> (r: Self)
        ensures
            r.deep_view() == url@,
    {
        PlaybackUrl(url)
    }

    pub fn as_str(&self) -> (r: &str)
        ensures
            r@ == self.deep_view(),
    {
        self.0.as_str()
    }

    pub fn into_string(self) -> (r: String)
        ensures
            r@ == self.deep_view(),
    {
        self.0
    }
}

} // verus!

verus! {

/// A result taken over to plain values.
pub open spec fn result_view<T: DeepView>(r: Result<T, ApiError>) -> Result<T::V, ApiErrorView> {
    match r {
        Ok(v) => Ok(v.deep_view()),
        Err(e) => Err(e@),
    }
}

} // verus!

verus! {

/// The service's address.
pub const API_BASE: &'static str = "https://api.music.yandex.net";

/// What the library asks of a transport: a GET, and a POST of JSON (which a
/// transport without one answers with an error). Each call may answer
/// anything; a transport may tie its answers, errors included, to the
/// request by defining `get_answer` and `post_answer`, under which every
/// answer is possible unless it says otherwise.
pub trait HttpClient {
    /// Whether `answer` is a possible answer to a GET of `url` with `token`.
    open spec fn get_answer(
        &self,
        url: Seq<char>,
        token: Seq<char>,
        answer: Result<Seq<char>, ApiErrorView>,
    ) -> bool {
        true
    }

    /// Whether `answer` is a possible answer to a POST of `body` to `url`
    /// with `token`.
    open spec fn post_answer(
        &self,
        url: Seq<char>,
        token: Seq<char>,
        body: JsonValue,
        answer: Result<Seq<char>, ApiErrorView>,
    ) -> bool {
        true
    }

    /// Fetches `url` with `token`.
    fn get(&self, url: &str, token: &str) -> (r: Result<String, ApiError>)
        ensures
            self.get_answer(url@, token@, result_view(r)),
    ;

    /// Posts `body` to `url` with `token`.
    fn post_json(&self, url: &str, token: &str, body: JsonValue) -> (r: Result<String, ApiError>)
        ensures
            self.post_answer(url@, token@, body, result_view(r)),
    ;
}

/// What a GET of `url` leads to when its answer is read with `read`.
pub open spec fn get_outcome<H: HttpClient, T>(
    http: H,
    url: Seq<char>,
    token: Seq<char>,
    read: spec_fn(Seq<char>) -> Result<T, ApiErrorView>,
    res: Result<T, ApiErrorView>,
) -> bool {
    exists|answer: Result<Seq<char>, ApiErrorView>|
        #[trigger] http.get_answer(url, token, answer) && res == match answer {
            Ok(body) => read(body),
            Err(e) => Err(e),
        }
}

/// A client of the music service for one account.
pub struct YandexMusicClient<H> {
    token: String,
    http: H,
}

impl<H> YandexMusicClient<H> {
    /// The account's token.
    pub closed spec fn token_view(&self) -> Seq<char> {
        self.token@
    }

    /// The transport the client asks through.
    pub closed spec fn transport(&self) -> H {
        self.http
    }

    pub fn new(token: String, http: H) -> (r: Self)
        ensures
            r.token_view() == token@,
            r.transport() == http,
    {
        YandexMusicClient { token, http }
    }

    pub fn http(&self) -> (r: &H)
        ensures
            *r == self.transport(),
    {
        &self.http
    }
}

} // verus!

verus! {

/// `API_BASE` followed by `path`.
pub open spec fn api_url(path: Seq<char>) -> Seq<char> {
    API_BASE@ + path
}

/// Where the account status is asked.
pub open spec fn account_url() -> Seq<char> {
    api_url("/account/status"@)
}

/// Where an account's liked tracks are asked.
pub open spec fn likes_url(uid: u64) -> Seq<char> {
    api_url("/users/"@ + decimal(uid as nat) + "/likes/tracks"@)
}

/// Where tracks are looked up by their references.
pub open spec fn tracks_url(ids: Seq<char>) -> Seq<char> {
    api_url("/tracks?trackIds="@ + ids)
}

/// Where the station list is asked.
pub open spec fn stations_url() -> Seq<char> {
    api_url("/rotor/stations/list"@)
}

/// `type:tag` of a station.
pub open spec fn station_id_of(station: StationView) -> Seq<char> {
    station.station_type + seq![':'] + station.tag
}

/// Where a station's tracks are asked.
pub open spec fn station_tracks_url(station_id: Seq<char>) -> Seq<char> {
    api_url("/rotor/station/"@ + station_id + "/tracks?settings2=true"@)
}

/// Where a station session is opened.
pub open spec fn session_url() -> Seq<char> {
    api_url("/rotor/session/new"@)
}

/// `id:album` where the album is given and not empty, else `id`.
pub open spec fn track_ref(track_id: Seq<char>, album_id: Option<Seq<char>>) -> Seq<char> {
    match album_id {
        Some(a) => if a.len() > 0 {
            track_id + seq![':'] + a
        } else {
            track_id
        },
        None => track_id,
    }
}

/// The text of an optional string.
pub open spec fn opt_str_view(o: Option<&str>) -> Option<Seq<char>> {
    match o {
        Some(s) => Some(s@),
        None => None,
    }
}

/// Where a track's download-info entries are asked.
pub open spec fn download_info_url(track_ref: Seq<char>) -> Seq<char> {
    api_url("/tracks/"@ + track_ref + "/download-info"@)
}

/// A new string holding `API_BASE`.
fn base_url() -> (r: String)
    ensures
        r@ == API_BASE@,
{
    String::from_str(API_BASE)
}

impl<H: HttpClient> YandexMusicClient<H> {
    /// Asks for the signed-in account.
    pub fn account_status(&self) -> (r: Result<AccountStatus, ApiError>)
        ensures
            get_outcome(
                self.transport(),
                account_url(),
                self.token_view(),
                |b: Seq<char>| with_document(b, |v: JsonValue| account_of(v)),
                result_view(r),
            ),
    {
        let mut url = base_url();
        url.append("/account/status");
        let answer = self.http.get(url.as_str(), self.token.as_str());
        let r = match answer {
            Ok(body) => account_status_from_body(body.as_str()),
            Err(e) => Err(e),
        };
        r
    }
}

} // verus!

verus! {

/// What looking up tracks by `ids` leads to: no tracks and no request for
/// empty ids, else the outcome of a GET of the `/tracks` address.
pub open spec fn summaries_outcome<H: HttpClient>(
    http: H,
    token: Seq<char>,
    ids: Seq<char>,
    res: Result<Seq<TrackView>, ApiErrorView>,
) -> bool {
    if ids.len() == 0 {
        res == Ok::<Seq<TrackView>, ApiErrorView>(seq![])
    } else {
        get_outcome(
            http,
            tracks_url(ids),
            token,
            |b: Seq<char>| with_document(b, |v: JsonValue| track_list_of(v)),
            res,
        )
    }
}

/// Whether `answer` may answer a POST of `request`, by the transport's relation.
pub open spec fn post_answered<H: HttpClient>(
    http: H,
    url: Seq<char>,
    token: Seq<char>,
    request: JsonValue,
    answer: Result<Seq<char>, ApiErrorView>,
) -> bool {
    http.post_answer(url, token, request, answer)
}

/// What a POST of `request` to `url` leads to when its answer is read with `read`.
pub open spec fn post_outcome<H: HttpClient, T>(
    http: H,
    url: Seq<char>,
    token: Seq<char>,
    request: JsonValue,
    read: spec_fn(Seq<char>) -> Result<T, ApiErrorView>,
    res: Result<T, ApiErrorView>,
) -> bool {
    exists|answer: Result<Seq<char>, ApiErrorView>|
        #[trigger] post_answered(http, url, token, request, answer) && res == match answer {
            Ok(body) => read(body),
            Err(e) => Err(e),
        }
}

/// Whether `body` is the request that opens a session on `station_id`:
/// `{"seeds":[station_id],"queue":[],"includeTracksInResponse":true,
/// "includeWaveModel":true,"interactive":false}`.
pub open spec fn is_session_request(body: JsonValue, station_id: Seq<char>) -> bool {
    match body {
        JsonValue::Object(m) => {
            &&& m@.len() == 5
            &&& m@[0].0@ == "seeds"@
            &&& match m@[0].1 {
                JsonValue::Array(s) => s@.len() == 1 && match s@[0] {
                    JsonValue::Text(t) => t@ == station_id,
                    _ => false,
                },
                _ => false,
            }
            &&& m@[1].0@ == "queue"@
            &&& match m@[1].1 {
                JsonValue::Array(q) => q@.len() == 0,
                _ => false,
            }
            &&& m@[2].0@ == "includeTracksInResponse"@
            &&& m@[2].1 == JsonValue::Bool(true)
            &&& m@[3].0@ == "includeWaveModel"@
            &&& m@[3].1 == JsonValue::Bool(true)
            &&& m@[4].0@ == "interactive"@
            &&& m@[4].1 == JsonValue::Bool(false)
        },
        _ => false,
    }
}

/// The request that opens a session on `station_id`.
pub fn session_request(station_id: String) -> (r: JsonValue)
    ensures
        is_session_request(r, station_id@),
{
    let seeds = vec![JsonValue::Text(station_id)];
    let queue: Vec<JsonValue> = Vec::new();
    let members = vec![
        (String::from_str("seeds"), JsonValue::Array(seeds)),
        (String::from_str("queue"), JsonValue::Array(queue)),
        (String::from_str("includeTracksInResponse"), JsonValue::Bool(true)),
        (String::from_str("includeWaveModel"), JsonValue::Bool(true)),
        (String::from_str("interactive"), JsonValue::Bool(false)),
    ];
    JsonValue::Object(members)
}

/// Where a search for `query` is asked.
pub open spec fn search_url(query: Seq<char>) -> Seq<char> {
    api_url("/search?text="@ + form_encode(encode_utf8(trim(query))) + "&type=track"@)
}

/// `type:tag` of a station.
pub fn station_id(station: &WaveStation) -> (r: String)
    ensures
        r@ == station_id_of(station.deep_view()),
{
    let mut id = station.station_type.clone();
    proof {
        reveal_strlit(":");
    }
    id.append(":");
    id.append(station.tag.as_str());
    id
}

impl<H: HttpClient> YandexMusicClient<H> {
    /// Asks for the liked tracks of the account `uid`, looking their
    /// details up where the list carries references only.
    pub fn liked_tracks(&self, uid: u64) -> (r: Result<Vec<TrackSummary>, ApiError>)
        ensures
            exists|answer: Result<Seq<char>, ApiErrorView>|
                #[trigger] self.transport().get_answer(likes_url(uid), self.token_view(), answer)
                    && match answer {
                    Err(e) => result_view(r) == Err::<Seq<TrackView>, ApiErrorView>(e),
                    Ok(b) => match with_document(b, |v: JsonValue| liked_of(v)) {
                        Err(e) => result_view(r) == Err::<Seq<TrackView>, ApiErrorView>(e),
                        Ok(LikedView::Ready(ts)) => result_view(r) == Ok::<
                            Seq<TrackView>,
                            ApiErrorView,
                        >(ts),
                        Ok(LikedView::Lookup(ids)) => summaries_outcome(
                            self.transport(),
                            self.token_view(),
                            ids,
                            result_view(r),
                        ),
                    },
                },
    {
        let mut url = base_url();
        url.append("/users/");
        push_decimal(&mut url, uid);
        url.append("/likes/tracks");
        assert(url@ =~= likes_url(uid));
        let answer = self.http.get(url.as_str(), self.token.as_str());
        let ghost a = result_view(answer);
        assert(self.transport().get_answer(likes_url(uid), self.token_view(), a));
        let r = match answer {
            Err(e) => Err(e),
            Ok(body) => {
                let liked = liked_tracks_from_body(body.as_str());
                match liked {
                    Err(e) => Err(e),
                    Ok(LikedTracks::Ready(ts)) => Ok(ts),
                    Ok(LikedTracks::Lookup(ids)) => self.track_summaries(ids),
                }
            },
        };
        assert(match a {
            Err(e) => result_view(r) == Err::<Seq<TrackView>, ApiErrorView>(e),
            Ok(b) => match with_document(b, |v: JsonValue| liked_of(v)) {
                Err(e) => result_view(r) == Err::<Seq<TrackView>, ApiErrorView>(e),
                Ok(LikedView::Ready(ts)) => result_view(r) == Ok::<Seq<TrackView>, ApiErrorView>(ts),
                Ok(LikedView::Lookup(ids)) => summaries_outcome(
                    self.transport(),
                    self.token_view(),
                    ids,
                    result_view(r),
                ),
            },
        });
        r
    }

    /// Looks tracks up by their references (`id` or `id:album`, joined with `,`).
    pub fn track_summaries(&self, track_ids: String) -> (r: Result<Vec<TrackSummary>, ApiError>)
        ensures
            summaries_outcome(self.transport(), self.token_view(), track_ids@, result_view(r)),
    {
        if track_ids.as_str().is_empty() {
            let none: Vec<TrackSummary> = Vec::new();
            assert(none.deep_view() =~= Seq::<TrackView>::empty());
            return Ok(none);
        }
        let mut url = base_url();
        url.append("/tracks?trackIds=");
        url.append(track_ids.as_str());
        assert(url@ =~= tracks_url(track_ids@));
        let answer = self.http.get(url.as_str(), self.token.as_str());
        match answer {
            Err(e) => Err(e),
            Ok(body) => track_list_from_body(body.as_str()),
        }
    }

    /// Asks for the station list; where the answer holds none, offers "My wave".
    pub fn wave_stations(&self) -> (r: Result<Vec<WaveStation>, ApiError>)
        ensures
            get_outcome(
                self.transport(),
                stations_url(),
                self.token_view(),
                |b: Seq<char>|
                    with_document(
                        b,
                        |v: JsonValue| Ok::<Seq<StationView>, ApiErrorView>(wave_stations_of(v)),
                    ),
                result_view(r),
            ),
    {
        let mut url = base_url();
        url.append("/rotor/stations/list");
        let answer = self.http.get(url.as_str(), self.token.as_str());
        match answer {
            Err(e) => Err(e),
            Ok(body) => wave_stations_from_body(body.as_str()),
        }
    }

    /// Asks for the tracks that a station plays.
    pub fn station_tracks(&self, station: &WaveStation) -> (r: Result<Vec<TrackSummary>, ApiError>)
        ensures
            get_outcome(
                self.transport(),
                station_tracks_url(station_id_of(station.deep_view())),
                self.token_view(),
                |b: Seq<char>| with_document(b, |v: JsonValue| station_tracks_of(v)),
                result_view(r),
            ),
    {
        let id = station_id(station);
        let mut url = base_url();
        url.append("/rotor/station/");
        url.append(id.as_str());
        url.append("/tracks?settings2=true");
        assert(url@ =~= station_tracks_url(station_id_of(station.deep_view())));
        let answer = self.http.get(url.as_str(), self.token.as_str());
        assert(self.http.get_answer(
            station_tracks_url(station_id_of(station.deep_view())),
            self.token@,
            result_view(answer),
        ));
        match answer {
            Err(e) => Err(e),
            Ok(body) => station_tracks_from_body(body.as_str()),
        }
    }

    /// Opens a session on a station and reads the tracks it starts with.
    pub fn station_session_tracks(&self, station: &WaveStation) -> (r: Result<
        Vec<TrackSummary>,
        ApiError,
    >)
        ensures
            exists|request: JsonValue|
                #[trigger] is_session_request(request, station_id_of(station.deep_view()))
                    && post_outcome(
                    self.transport(),
                    session_url(),
                    self.token_view(),
                    request,
                    |b: Seq<char>| with_document(b, |v: JsonValue| station_tracks_of(v)),
                    result_view(r),
                ),
    {
        let id = station_id(station);
        let request = session_request(id);
        let ghost sent = request;
        let mut url = base_url();
        url.append("/rotor/session/new");
        let answer = self.http.post_json(url.as_str(), self.token.as_str(), request);
        let r = match answer {
            Err(e) => Err(e),
            Ok(body) => station_tracks_from_body(body.as_str()),
        };
        assert(post_answered(self.http, session_url(), self.token@, sent, result_view(answer)));
        r
    }

    /// Resolves the signed MP3 address of a track: asks for its
    /// download-info entries, fetches the document of the best MP3 entry,
    /// and signs the address it describes.
    pub fn track_playback_url(&self, track_id: &str, album_id: Option<&str>) -> (r: Result<
        PlaybackUrl,
        ApiError,
    >)
        ensures
            exists|answer: Result<Seq<char>, ApiErrorView>|
                #[trigger] self.transport().get_answer(
                    download_info_url(
                        track_ref(track_id@, opt_str_view(album_id)),
                    ),
                    self.token_view(),
                    answer,
                ) && match answer {
                    Err(e) => result_view(r) == Err::<Seq<char>, ApiErrorView>(e),
                    Ok(b) => match with_document(b, |v: JsonValue| download_source_of(v)) {
                        Err(e) => result_view(r) == Err::<Seq<char>, ApiErrorView>(e),
                        Ok(source) => get_outcome(
                            self.transport(),
                            source,
                            self.token_view(),
                            |xml: Seq<char>|
                                match download_info_of(xml) {
                                    Ok(info) => Ok(
                                        signed_mp3_url(info.host, info.path, info.s, info.ts),
                                    ),
                                    Err(e) => Err(e),
                                },
                            result_view(r),
                        ),
                    },
                },
    {
        let mut url = base_url();
        url.append("/tracks/");
        url.append(track_id);
        match album_id {
            Some(a) => {
                if !a.is_empty() {
                    proof {
                        reveal_strlit(":");
                    }
                    url.append(":");
                    url.append(a);
                }
            },
            None => {},
        }
        url.append("/download-info");
        assert(url@ =~= download_info_url(track_ref(track_id@, opt_str_view(album_id))));
        let answer = self.http.get(url.as_str(), self.token.as_str());
        let ghost a = result_view(answer);
        assert(self.transport().get_answer(
            download_info_url(track_ref(track_id@, opt_str_view(album_id))),
            self.token_view(),
            a,
        ));
        let r = match answer {
            Err(e) => Err(e),
            Ok(body) => match download_source_from_body(body.as_str()) {
                Err(e) => Err(e),
                Ok(source) => {
                    let xml_answer = self.http.get(source.as_str(), self.token.as_str());
                    assert(self.transport().get_answer(
                        source@,
                        self.token_view(),
                        result_view(xml_answer),
                    ));
                    match xml_answer {
                        Err(e) => Err(e),
                        Ok(xml) => match parse_download_xml(xml.as_str()) {
                            Err(e) => Err(e),
                            Ok(info) => Ok(
                                PlaybackUrl::new(
                                    build_signed_mp3_url(
                                        info.host.as_str(),
                                        info.path.as_str(),
                                        info.s.as_str(),
                                        info.ts.as_str(),
                                    ),
                                ),
                            ),
                        },
                    }
                },
            },
        };
        assert(match a {
            Err(e) => result_view(r) == Err::<Seq<char>, ApiErrorView>(e),
            Ok(b) => match with_document(b, |v: JsonValue| download_source_of(v)) {
                Err(e) => result_view(r) == Err::<Seq<char>, ApiErrorView>(e),
                Ok(source) => get_outcome(
                    self.transport(),
                    source,
                    self.token_view(),
                    |xml: Seq<char>|
                        match download_info_of(xml) {
                            Ok(info) => Ok(signed_mp3_url(info.host, info.path, info.s, info.ts)),
                            Err(e) => Err(e),
                        },
                    result_view(r),
                ),
            },
        });
        r
    }

    /// Searches tracks; a blank query asks nothing and finds nothing.
    pub fn search_tracks(&self, query: &str) -> (r: Result<Vec<TrackSummary>, ApiError>)
        ensures
            if trim(query@).len() == 0 {
                result_view(r) == Ok::<Seq<TrackView>, ApiErrorView>(seq![])
            } else {
                get_outcome(
                    self.transport(),
                    search_url(query@),
                    self.token_view(),
                    |b: Seq<char>|
                        with_document(
                            b,
                            |v: JsonValue| Ok::<Seq<TrackView>, ApiErrorView>(search_results_of(v)),
                        ),
                    result_view(r),
                )
            },
    {
        let trimmed = trim_str(query);
        if trimmed.as_str().is_empty() {
            let none: Vec<TrackSummary> = Vec::new();
            assert(none.deep_view() =~= Seq::<TrackView>::empty());
            return Ok(none);
        }
        let mut url = base_url();
        url.append("/search?text=");
        push_form_encoded(&mut url, trimmed.as_str().as_bytes());
        url.append("&type=track");
        assert(url@ =~= search_url(query@));
        let answer = self.http.get(url.as_str(), self.token.as_str());
        match answer {
            Err(e) => Err(e),
            Ok(body) => search_results_from_body(body.as_str()),
        }
    }
}

} // verus!
