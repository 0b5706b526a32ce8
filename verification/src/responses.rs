//! What the service's answers mean: the records read out of its JSON.
use vstd::prelude::*;
use vstd::string::*;

use crate::api::{
    result_view, AccountStatus, AccountView, ApiError, ApiErrorView, StationView, TrackSummary,
    TrackView, WaveStation,
};
use crate::json::{
    as_items, as_text, as_u64, deref_opt, first_item, first_of, get, get_opt, items_of, obj_get,
    opt_get, parse_json, serde_json_document, string_field, string_member, text_of, u64_of,
    JsonValue,
};
use crate::text::{non_empty, non_empty_str};

verus! {

/// The document itself, or its `result` member where it has one.
pub open spec fn payload(v: JsonValue) -> JsonValue {
    match obj_get(v, "result"@) {
        Some(p) => p,
        None => v,
    }
}

/// The text of a string or number value.
pub open spec fn value_text(o: Option<JsonValue>) -> Option<Seq<char>> {
    match o {
        Some(JsonValue::Text(s)) => Some(s@),
        Some(JsonValue::Number(n)) => Some(n.text@),
        _ => None,
    }
}

/// `o`, or `d` where `o` is `None`.
pub open spec fn or_else_text(o: Option<Seq<char>>, d: Seq<char>) -> Seq<char> {
    match o {
        Some(s) => s,
        None => d,
    }
}

/// The track that `v` describes, with the stand-ins for what it lacks.
pub open spec fn track_of(v: JsonValue) -> TrackView {
    TrackView {
        id: or_else_text(value_text(obj_get(v, "id"@)), "unknown"@),
        album_id: match value_text(obj_get(v, "albumId"@)) {
            Some(a) => Some(a),
            None => value_text(opt_get(first_item(obj_get(v, "albums"@)), "id"@)),
        },
        title: or_else_text(string_field(v, "title"@), "Untitled"@),
        artist: or_else_text(
            as_text(opt_get(first_item(obj_get(v, "artists"@)), "name"@)),
            "Unknown artist"@,
        ),
    }
}

/// A track's artist is the string `name` of the first element of its
/// `artists` array, else `Unknown artist`; its title is its string `title`,
/// else `Untitled`.
pub proof fn track_artist_is_the_first_artists_name(v: JsonValue)
    ensures
        track_of(v).artist == match obj_get(v, "artists"@) {
            Some(JsonValue::Array(a)) => if a@.len() > 0 {
                match obj_get(a@[0], "name"@) {
                    Some(JsonValue::Text(n)) => n@,
                    _ => "Unknown artist"@,
                }
            } else {
                "Unknown artist"@
            },
            _ => "Unknown artist"@,
        },
        track_of(v).title == match obj_get(v, "title"@) {
            Some(JsonValue::Text(t)) => t@,
            _ => "Untitled"@,
        },
{
}

/// The tracks that the items describe, in order.
pub open spec fn tracks_of(items: Seq<JsonValue>) -> Seq<TrackView> {
    items.map_values(|v: JsonValue| track_of(v))
}

/// The trimmed text of `o`, where there is some.
pub open spec fn opt_non_empty(o: Option<Seq<char>>) -> Option<Seq<char>> {
    match o {
        Some(s) => non_empty(s),
        None => None,
    }
}

/// The name to show for an account: its display name, or else its first
/// and last (or second) names.
pub open spec fn display_name_of(account: JsonValue) -> Option<Seq<char>> {
    match opt_non_empty(string_field(account, "displayName"@)) {
        Some(d) => Some(d),
        None => {
            let first = opt_non_empty(string_field(account, "firstName"@));
            let last = opt_non_empty(
                match string_field(account, "lastName"@) {
                    Some(l) => Some(l),
                    None => string_field(account, "secondName"@),
                },
            );
            match (first, last) {
                (Some(f), Some(l)) => Some(f + seq![' '] + l),
                (Some(f), None) => Some(f),
                (None, Some(l)) => Some(l),
                (None, None) => None,
            }
        },
    }
}

/// The account that an account-status document describes.
pub open spec fn account_of(v: JsonValue) -> Result<AccountView, ApiErrorView> {
    match obj_get(payload(v), "account"@) {
        None => Err(ApiErrorView::MissingField("account"@)),
        Some(account) => match string_field(account, "login"@) {
            None => Err(ApiErrorView::MissingField("account.login"@)),
            Some(login) => match as_u64(obj_get(account, "uid"@)) {
                None => Err(ApiErrorView::MissingField("account.uid"@)),
                Some(uid) => Ok(
                    AccountView {
                        uid,
                        login,
                        display_name: or_else_text(display_name_of(account), login),
                    },
                ),
            },
        },
    }
}

/// The outcome of reading `body` as JSON and then with `f`.
pub open spec fn with_document<T>(
    body: Seq<char>,
    f: spec_fn(JsonValue) -> Result<T, ApiErrorView>,
) -> Result<T, ApiErrorView> {
    match serde_json_document(body) {
        Err(m) => Err(ApiErrorView::Parse(m)),
        Ok(v) => f(v),
    }
}

/// The string member `key` of `v`.
pub fn string_field_of<'a>(v: &'a JsonValue, key: &str) -> (r: Option<&'a str>)
    ensures
        match r {
            Some(s) => string_field(*v, key@) == Some(s@),
            None => string_field(*v, key@) is None,
        },
{
    string_member(v, key)
}

/// The document itself, or its `result` member.
pub fn payload_of(v: &JsonValue) -> (r: &JsonValue)
    ensures
        *r == payload(*v),
{
    match get(v, "result") {
        Some(p) => p,
        None => v,
    }
}

/// The text of a string or number value.
pub fn value_to_string(o: Option<&JsonValue>) -> (r: Option<String>)
    ensures
        match r {
            Some(s) => value_text(deref_opt(o)) == Some(s@),
            None => value_text(deref_opt(o)) is None,
        },
{
    match o {
        Some(JsonValue::Text(s)) => Some(s.clone()),
        Some(JsonValue::Number(n)) => Some(n.text.clone()),
        _ => None,
    }
}

/// The track that `v` describes.
pub fn parse_track_summary(v: &JsonValue) -> (r: TrackSummary)
    ensures
        r.deep_view() == track_of(*v),
{
    let artist = match text_of(get_opt(first_of(get(v, "artists")), "name")) {
        Some(a) => String::from_str(a),
        None => String::from_str("Unknown artist"),
    };
    let id = match value_to_string(get(v, "id")) {
        Some(id) => id,
        None => String::from_str("unknown"),
    };
    let album_id = match value_to_string(get(v, "albumId")) {
        Some(a) => Some(a),
        None => value_to_string(get_opt(first_of(get(v, "albums")), "id")),
    };
    let title = match string_member(v, "title") {
        Some(t) => String::from_str(t),
        None => String::from_str("Untitled"),
    };
    TrackSummary { id, album_id, title, artist }
}

/// The tracks that the items describe.
pub fn parse_track_list(items: &Vec<JsonValue>) -> (r: Vec<TrackSummary>)
    ensures
        r.deep_view() == tracks_of(items@),
{
    let mut out: Vec<TrackSummary> = Vec::new();
    let mut i: usize = 0;
    while i < items.len()
        invariant
            i <= items.len(),
            out.deep_view() == tracks_of(items@.take(i as int)),
        decreases items.len() - i,
    {
        let ghost before = out.deep_view();
        let t = parse_track_summary(&items[i]);
        out.push(t);
        assert(out.deep_view() =~= before.push(track_of(items@[i as int])));
        i = i + 1;
    }
    out
}

/// The trimmed text of `s`, where there is some.
pub fn non_empty_string(s: &str) -> (r: Option<String>)
    ensures
        match r {
            Some(t) => non_empty(s@) == Some(t@),
            None => non_empty(s@) is None,
        },
{
    non_empty_str(s)
}

/// The name to show for an account.
pub fn account_display_name(account: &JsonValue) -> (r: Option<String>)
    ensures
        match r {
            Some(d) => display_name_of(*account) == Some(d@),
            None => display_name_of(*account) is None,
        },
{
    if let Some(d) = string_member(account, "displayName") {
        if let Some(d) = non_empty_string(d) {
            return Some(d);
        }
    }
    let first = match string_member(account, "firstName") {
        Some(f) => non_empty_string(f),
        None => None,
    };
    let last_raw = match string_member(account, "lastName") {
        Some(l) => Some(l),
        None => string_member(account, "secondName"),
    };
    let last = match last_raw {
        Some(l) => non_empty_string(l),
        None => None,
    };
    match (first, last) {
        (Some(f), Some(l)) => {
            let mut s = f;
            proof {
                reveal_strlit(" ");
            }
            s.append(" ");
            s.append(l.as_str());
            Some(s)
        },
        (Some(f), None) => Some(f),
        (None, Some(l)) => Some(l),
        (None, None) => None,
    }
}

/// The account that an account-status document describes.
pub fn account_status_from_json(value: &JsonValue) -> (r: Result<AccountStatus, ApiError>)
    ensures
        result_view(r) == account_of(*value),
{
    let payload = payload_of(value);
    let account = match get(payload, "account") {
        Some(a) => a,
        None => return Err(ApiError::MissingField("account")),
    };
    let login = match string_member(account, "login") {
        Some(l) => String::from_str(l),
        None => return Err(ApiError::MissingField("account.login")),
    };
    let uid = match u64_of(get(account, "uid")) {
        Some(u) => u,
        None => return Err(ApiError::MissingField("account.uid")),
    };
    let display_name = match account_display_name(account) {
        Some(d) => d,
        None => login.clone(),
    };
    Ok(AccountStatus { uid, login, display_name })
}

/// The account that an account-status answer describes.
pub fn account_status_from_body(body: &str) -> (r: Result<AccountStatus, ApiError>)
    ensures
        result_view(r) == with_document(body@, |v: JsonValue| account_of(v)),
{
    match parse_json(body) {
        Ok(v) => account_status_from_json(&v),
        Err(m) => Err(ApiError::Parse(m)),
    }
}

} // verus!

verus! {

/// The track list of a liked-tracks document.
pub open spec fn library_tracks(v: JsonValue) -> Option<Seq<JsonValue>> {
    as_items(opt_get(obj_get(payload(v), "library"@), "tracks"@))
}

/// Whether `v` carries a title and at least one artist.
pub open spec fn has_metadata(v: JsonValue) -> bool {
    &&& string_field(v, "title"@) is Some
    &&& match as_items(obj_get(v, "artists"@)) {
        Some(a) => a.len() > 0,
        None => false,
    }
}

/// `id` or `id:albumId` for a track reference.
pub open spec fn track_ref_of(t: JsonValue) -> Option<Seq<char>> {
    match value_text(obj_get(t, "id"@)) {
        None => None,
        Some(id) => Some(
            match value_text(obj_get(t, "albumId"@)) {
                Some(a) => id + seq![':'] + a,
                None => id,
            },
        ),
    }
}

/// The references of the tracks, joined with `,`.
pub open spec fn joined_refs(ts: Seq<JsonValue>) -> Seq<char>
    decreases ts.len(),
{
    if ts.len() == 0 {
        seq![]
    } else if ts.len() == 1 {
        or_else_text(track_ref_of(ts[0]), seq![])
    } else {
        joined_refs(ts.drop_last()) + seq![','] + or_else_text(track_ref_of(ts.last()), seq![])
    }
}

/// The `trackIds` parameter for the tracks, or the error for one without an id.
pub open spec fn track_ids_of(ts: Seq<JsonValue>) -> Result<Seq<char>, ApiErrorView> {
    if forall|i: int| 0 <= i < ts.len() ==> #[trigger] track_ref_of(ts[i]) is Some {
        Ok(joined_refs(ts))
    } else {
        Err(ApiErrorView::MissingField("track.id"@))
    }
}

/// A liked-tracks list: complete, or to be looked up by these ids.
pub enum LikedView {
    Ready(Seq<TrackView>),
    Lookup(Seq<char>),
}

/// What a liked-tracks document holds.
pub open spec fn liked_of(v: JsonValue) -> Result<LikedView, ApiErrorView> {
    match library_tracks(v) {
        None => Err(ApiErrorView::MissingField("library.tracks"@)),
        Some(ts) => if forall|i: int| 0 <= i < ts.len() ==> #[trigger] has_metadata(ts[i]) {
            Ok(LikedView::Ready(tracks_of(ts)))
        } else {
            match track_ids_of(ts) {
                Ok(ids) => Ok(LikedView::Lookup(ids)),
                Err(e) => Err(e),
            }
        },
    }
}

/// The tracks of a `/tracks` document.
pub open spec fn track_list_of(v: JsonValue) -> Result<Seq<TrackView>, ApiErrorView> {
    match as_items(Some(payload(v))) {
        None => Err(ApiErrorView::MissingField("tracks[]"@)),
        Some(items) => Ok(tracks_of(items)),
    }
}

/// A liked-tracks list: complete, or to be looked up by these ids.
pub enum LikedTracks {
    Ready(Vec<TrackSummary>),
    Lookup(String),
}

impl DeepView for LikedTracks {
    type V = LikedView;

    open spec fn deep_view(&self) -> LikedView {
        match self {
            LikedTracks::Ready(ts) => LikedView::Ready(ts.deep_view()),
            LikedTracks::Lookup(ids) => LikedView::Lookup(ids@),
        }
    }
}

/// Whether `v` carries a title and at least one artist.
pub fn has_track_metadata(v: &JsonValue) -> (r: bool)
    ensures
        r == has_metadata(*v),
{
    string_member(v, "title").is_some() && match items_of(get(v, "artists")) {
        Some(a) => a.len() > 0,
        None => false,
    }
}

/// The references of the tracks, joined with `,`.
pub fn track_ids_param(tracks: &Vec<JsonValue>) -> (r: Result<String, ApiError>)
    ensures
        result_view(r) == track_ids_of(tracks@),
{
    let mut ids = String::new();
    let mut i: usize = 0;
    while i < tracks.len()
        invariant
            i <= tracks.len(),
            forall|j: int| 0 <= j < i ==> #[trigger] track_ref_of(tracks@[j]) is Some,
            ids@ == joined_refs(tracks@.take(i as int)),
        decreases tracks.len() - i,
    {
        let t = &tracks[i];
        let id = match value_to_string(get(t, "id")) {
            Some(id) => id,
            None => {
                return Err(ApiError::MissingField("track.id"));
            },
        };
        let mut one = id;
        match value_to_string(get(t, "albumId")) {
            Some(a) => {
                proof {
                    reveal_strlit(":");
                }
                one.append(":");
                one.append(a.as_str());
            },
            None => {},
        }
        assert(track_ref_of(tracks@[i as int]) == Some(one@));
        let ghost before = tracks@.take(i as int);
        assert(tracks@.take(i + 1).drop_last() =~= before);
        if i > 0 {
            proof {
                reveal_strlit(",");
            }
            ids.append(",");
        }
        ids.append(one.as_str());
        i = i + 1;
    }
    assert(tracks@.take(tracks.len() as int) =~= tracks@);
    Ok(ids)
}

/// What a liked-tracks document holds.
pub fn liked_tracks_from_json(value: &JsonValue) -> (r: Result<LikedTracks, ApiError>)
    ensures
        result_view(r) == liked_of(*value),
{
    let tracks = match items_of(get_opt(get(payload_of(value), "library"), "tracks")) {
        Some(ts) => ts,
        None => return Err(ApiError::MissingField("library.tracks")),
    };
    let mut all = true;
    let mut i: usize = 0;
    while i < tracks.len()
        invariant
            i <= tracks.len(),
            all == forall|j: int| 0 <= j < i ==> #[trigger] has_metadata(tracks@[j]),
        decreases tracks.len() - i,
    {
        if !has_track_metadata(&tracks[i]) {
            all = false;
        }
        i = i + 1;
    }
    if all {
        return Ok(LikedTracks::Ready(parse_track_list(tracks)));
    }
    match track_ids_param(tracks) {
        Ok(ids) => Ok(LikedTracks::Lookup(ids)),
        Err(e) => Err(e),
    }
}

/// What a liked-tracks answer holds.
pub fn liked_tracks_from_body(body: &str) -> (r: Result<LikedTracks, ApiError>)
    ensures
        result_view(r) == with_document(body@, |v: JsonValue| liked_of(v)),
{
    match parse_json(body) {
        Ok(v) => liked_tracks_from_json(&v),
        Err(m) => Err(ApiError::Parse(m)),
    }
}

/// The tracks of a `/tracks` document.
pub fn track_list_from_json(value: &JsonValue) -> (r: Result<Vec<TrackSummary>, ApiError>)
    ensures
        result_view(r) == track_list_of(*value),
{
    match items_of(Some(payload_of(value))) {
        Some(items) => Ok(parse_track_list(items)),
        None => Err(ApiError::MissingField("tracks[]")),
    }
}

/// The tracks of a `/tracks` answer.
pub fn track_list_from_body(body: &str) -> (r: Result<Vec<TrackSummary>, ApiError>)
    ensures
        result_view(r) == with_document(body@, |v: JsonValue| track_list_of(v)),
{
    match parse_json(body) {
        Ok(v) => track_list_from_json(&v),
        Err(m) => Err(ApiError::Parse(m)),
    }
}

} // verus!

verus! {

/// The station that `v` (or its `station` member) describes, where it has an id.
pub open spec fn station_of(v: JsonValue) -> Option<StationView> {
    let station = match obj_get(v, "station"@) {
        Some(s) => s,
        None => v,
    };
    match obj_get(station, "id"@) {
        None => None,
        Some(id) => Some(
            StationView {
                station_type: or_else_text(string_field(id, "type"@), "unknown"@),
                tag: or_else_text(string_field(id, "tag"@), "unknown"@),
                name: or_else_text(string_field(station, "name"@), "Unnamed wave"@),
            },
        ),
    }
}

/// The stations that the items describe, skipping those without an id.
pub open spec fn stations_of(items: Seq<JsonValue>) -> Seq<StationView>
    decreases items.len(),
{
    if items.len() == 0 {
        seq![]
    } else {
        let rest = stations_of(items.drop_last());
        match station_of(items.last()) {
            Some(s) => rest.push(s),
            None => rest,
        }
    }
}

/// The station offered when the service names none: "My wave".
pub open spec fn default_stations() -> Seq<StationView> {
    seq![StationView { station_type: "user"@, tag: "onyourwave"@, name: "Моя волна"@ }]
}

/// The first `stations` array in `v`, searching members and items depth first.
pub open spec fn station_list(v: JsonValue) -> Option<Seq<JsonValue>>
    decreases v, 0int,
{
    match as_items(obj_get(v, "stations"@)) {
        Some(items) => Some(items),
        None => match v {
            JsonValue::Object(entries) => stations_in_members(entries, 0),
            JsonValue::Array(items) => stations_in_items(items, 0),
            _ => None,
        },
    }
}

/// The first `stations` array within `items[i..]`.
pub open spec fn stations_in_items(items: Vec<JsonValue>, i: int) -> Option<Seq<JsonValue>>
    decreases items, items.len() - i,
{
    if i < 0 || i >= items.len() {
        None
    } else {
        match station_list(items[i]) {
            Some(s) => Some(s),
            None => stations_in_items(items, i + 1),
        }
    }
}

/// The first `stations` array within the values of `entries[i..]`.
pub open spec fn stations_in_members(entries: Vec<(String, JsonValue)>, i: int) -> Option<
    Seq<JsonValue>,
>
    decreases entries, entries.len() - i,
{
    if i < 0 || i >= entries.len() {
        None
    } else {
        match station_list(entries[i].1) {
            Some(s) => Some(s),
            None => stations_in_members(entries, i + 1),
        }
    }
}

/// The stations of a station-list document, or the default one where it
/// holds no list.
pub open spec fn wave_stations_of(v: JsonValue) -> Seq<StationView> {
    match station_list(payload(v)) {
        None => default_stations(),
        Some(items) => stations_of(items),
    }
}

/// The `track` members of the items, as tracks.
pub open spec fn sequence_tracks(items: Seq<JsonValue>) -> Seq<TrackView>
    decreases items.len(),
{
    if items.len() == 0 {
        seq![]
    } else {
        let rest = sequence_tracks(items.drop_last());
        match obj_get(items.last(), "track"@) {
            Some(t) => rest.push(track_of(t)),
            None => rest,
        }
    }
}

/// The tracks read from a run of sequence entries are those of its parts,
/// one after the other; a single entry gives its `track` member's track, or
/// none where it has no such member. So every entry with a track gives
/// exactly one track, in the entries' order.
pub proof fn sequence_tracks_follow_the_entries(a: Seq<JsonValue>, b: Seq<JsonValue>, e: JsonValue)
    ensures
        sequence_tracks(a + b) == sequence_tracks(a) + sequence_tracks(b),
        sequence_tracks(seq![e]) == match obj_get(e, "track"@) {
            Some(t) => seq![track_of(t)],
            None => Seq::<TrackView>::empty(),
        },
    decreases b.len(),
{
    assert(seq![e].drop_last() =~= Seq::<JsonValue>::empty());
    assert(sequence_tracks(Seq::<JsonValue>::empty()) == Seq::<TrackView>::empty());
    assert(seq![e].last() == e);
    match obj_get(e, "track"@) {
        Some(t) => assert(sequence_tracks(seq![e]) =~= seq![track_of(t)]),
        None => assert(sequence_tracks(seq![e]) =~= Seq::<TrackView>::empty()),
    }
    if b.len() == 0 {
        assert(a + b =~= a);
        assert(sequence_tracks(a) + sequence_tracks(b) =~= sequence_tracks(a));
    } else {
        sequence_tracks_follow_the_entries(a, b.drop_last(), e);
        assert((a + b).drop_last() =~= a + b.drop_last());
        assert((a + b).last() == b.last());
        match obj_get(b.last(), "track"@) {
            Some(t) => assert(sequence_tracks(a) + sequence_tracks(b) =~= (sequence_tracks(a)
                + sequence_tracks(b.drop_last())).push(track_of(t))),
            None => {},
        }
    }
}

/// The tracks of a station or session document.
pub open spec fn station_tracks_of(v: JsonValue) -> Result<Seq<TrackView>, ApiErrorView> {
    match as_items(obj_get(payload(v), "sequence"@)) {
        None => Err(ApiErrorView::MissingField("sequence"@)),
        Some(items) => Ok(sequence_tracks(items)),
    }
}

/// The station that `v` describes.
pub fn parse_wave_station(v: &JsonValue) -> (r: Option<WaveStation>)
    ensures
        match r {
            Some(s) => station_of(*v) == Some(s.deep_view()),
            None => station_of(*v) is None,
        },
{
    let station = match get(v, "station") {
        Some(s) => s,
        None => v,
    };
    let id = match get(station, "id") {
        Some(id) => id,
        None => return None,
    };
    let station_type = match string_member(id, "type") {
        Some(t) => String::from_str(t),
        None => String::from_str("unknown"),
    };
    let tag = match string_member(id, "tag") {
        Some(t) => String::from_str(t),
        None => String::from_str("unknown"),
    };
    let name = match string_member(station, "name") {
        Some(n) => String::from_str(n),
        None => String::from_str("Unnamed wave"),
    };
    Some(WaveStation { station_type, tag, name })
}

/// The stations that the items describe.
pub fn parse_station_list(items: &Vec<JsonValue>) -> (r: Vec<WaveStation>)
    ensures
        r.deep_view() == stations_of(items@),
{
    let mut out: Vec<WaveStation> = Vec::new();
    let mut i: usize = 0;
    while i < items.len()
        invariant
            i <= items.len(),
            out.deep_view() == stations_of(items@.take(i as int)),
        decreases items.len() - i,
    {
        let ghost before = out.deep_view();
        assert(items@.take(i + 1).drop_last() =~= items@.take(i as int));
        match parse_wave_station(&items[i]) {
            Some(s) => {
                out.push(s);
            },
            None => {},
        }
        i = i + 1;
    }
    assert(items@.take(items.len() as int) =~= items@);
    out
}

/// The station offered when the service names none: "My wave".
pub fn default_wave_stations() -> (r: Vec<WaveStation>)
    ensures
        r.deep_view() == default_stations(),
{
    let mut v = Vec::new();
    v.push(
        WaveStation {
            station_type: String::from_str("user"),
            tag: String::from_str("onyourwave"),
            name: String::from_str("Моя волна"),
        },
    );
    v
}

/// The first `stations` array in `v`, searching members and items depth first.
pub fn station_entries(v: &JsonValue) -> (r: Option<&Vec<JsonValue>>)
    ensures
        match r {
            Some(items) => station_list(*v) == Some(items@),
            None => station_list(*v) is None,
        },
    decreases *v, 0int,
{
    match items_of(get(v, "stations")) {
        Some(items) => Some(items),
        None => match v {
            JsonValue::Object(entries) => stations_within_members(entries, 0),
            JsonValue::Array(items) => stations_within_items(items, 0),
            _ => None,
        },
    }
}

fn stations_within_items(items: &Vec<JsonValue>, i: usize) -> (r: Option<&Vec<JsonValue>>)
    ensures
        match r {
            Some(found) => stations_in_items(*items, i as int) == Some(found@),
            None => stations_in_items(*items, i as int) is None,
        },
    decreases *items, items.len() - i,
{
    if i >= items.len() {
        return None;
    }
    match station_entries(&items[i]) {
        Some(found) => Some(found),
        None => stations_within_items(items, i + 1),
    }
}

fn stations_within_members(entries: &Vec<(String, JsonValue)>, i: usize) -> (r: Option<
    &Vec<JsonValue>,
>)
    ensures
        match r {
            Some(found) => stations_in_members(*entries, i as int) == Some(found@),
            None => stations_in_members(*entries, i as int) is None,
        },
    decreases *entries, entries.len() - i,
{
    if i >= entries.len() {
        return None;
    }
    match station_entries(&entries[i].1) {
        Some(found) => Some(found),
        None => stations_within_members(entries, i + 1),
    }
}

/// The stations of a station-list document.
pub fn wave_stations_from_json(value: &JsonValue) -> (r: Vec<WaveStation>)
    ensures
        r.deep_view() == wave_stations_of(*value),
{
    match station_entries(payload_of(value)) {
        Some(items) => parse_station_list(items),
        None => default_wave_stations(),
    }
}

/// The stations of a station-list answer.
pub fn wave_stations_from_body(body: &str) -> (r: Result<Vec<WaveStation>, ApiError>)
    ensures
        result_view(r) == with_document(
            body@,
            |v: JsonValue| Ok::<Seq<StationView>, ApiErrorView>(wave_stations_of(v)),
        ),
{
    match parse_json(body) {
        Ok(v) => Ok(wave_stations_from_json(&v)),
        Err(m) => Err(ApiError::Parse(m)),
    }
}

/// The `track` members of the items, as tracks.
pub fn parse_sequence(items: &Vec<JsonValue>) -> (r: Vec<TrackSummary>)
    ensures
        r.deep_view() == sequence_tracks(items@),
{
    let mut out: Vec<TrackSummary> = Vec::new();
    let mut i: usize = 0;
    while i < items.len()
        invariant
            i <= items.len(),
            out.deep_view() == sequence_tracks(items@.take(i as int)),
        decreases items.len() - i,
    {
        let ghost before = out.deep_view();
        assert(items@.take(i + 1).drop_last() =~= items@.take(i as int));
        match get(&items[i], "track") {
            Some(t) => {
                let track = parse_track_summary(t);
                out.push(track);
            },
            None => {},
        }
        i = i + 1;
    }
    assert(items@.take(items.len() as int) =~= items@);
    out
}

/// The tracks of a station or session document.
pub fn station_tracks_from_json(value: &JsonValue) -> (r: Result<Vec<TrackSummary>, ApiError>)
    ensures
        result_view(r) == station_tracks_of(*value),
{
    match items_of(get(payload_of(value), "sequence")) {
        Some(items) => Ok(parse_sequence(items)),
        None => Err(ApiError::MissingField("sequence")),
    }
}

/// The tracks of a station or session answer.
pub fn station_tracks_from_body(body: &str) -> (r: Result<Vec<TrackSummary>, ApiError>)
    ensures
        result_view(r) == with_document(body@, |v: JsonValue| station_tracks_of(v)),
{
    match parse_json(body) {
        Ok(v) => station_tracks_from_json(&v),
        Err(m) => Err(ApiError::Parse(m)),
    }
}

} // verus!

verus! {

/// Whether a download-info entry offers MP3.
pub open spec fn is_mp3(e: JsonValue) -> bool {
    string_field(e, "codec"@) == Some("mp3"@)
}

/// The bit rate of a download-info entry, 0 where it names none.
pub open spec fn bitrate_of(e: JsonValue) -> u64 {
    match as_u64(obj_get(e, "bitrateInKbps"@)) {
        Some(b) => b,
        None => 0,
    }
}

/// The index of the MP3 entry with the highest bit rate, the last one
/// among equals.
pub open spec fn best_mp3(entries: Seq<JsonValue>) -> Option<int>
    decreases entries.len(),
{
    if entries.len() == 0 {
        None
    } else {
        let prev = best_mp3(entries.drop_last());
        let last = entries.len() - 1;
        if !is_mp3(entries[last]) {
            prev
        } else {
            match prev {
                None => Some(last),
                Some(p) => if bitrate_of(entries[last]) >= bitrate_of(entries[p]) {
                    Some(last)
                } else {
                    prev
                },
            }
        }
    }
}

/// The address of the download-info document to fetch: that of the best
/// MP3 entry, else that of the first entry.
pub open spec fn download_source_of(v: JsonValue) -> Result<Seq<char>, ApiErrorView> {
    match as_items(Some(payload(v))) {
        None => Err(ApiErrorView::MissingField("download-info[]"@)),
        Some(entries) => {
            let chosen = match best_mp3(entries) {
                Some(i) => Some(entries[i]),
                None => if entries.len() > 0 {
                    Some(entries[0])
                } else {
                    None
                },
            };
            match chosen {
                None => Err(ApiErrorView::MissingField("downloadInfoUrl"@)),
                Some(e) => match string_field(e, "downloadInfoUrl"@) {
                    None => Err(ApiErrorView::MissingField("downloadInfoUrl"@)),
                    Some(u) => Ok(u),
                },
            }
        },
    }
}

/// The tracks of a search document; none where it lists no track results.
pub open spec fn search_results_of(v: JsonValue) -> Seq<TrackView> {
    match as_items(opt_get(obj_get(payload(v), "tracks"@), "results"@)) {
        None => seq![],
        Some(items) => tracks_of(items),
    }
}

/// The entry picked for download is an MP3 one whose bit rate no other MP3
/// entry exceeds; none is picked only where no entry offers MP3.
pub proof fn best_mp3_is_highest_bitrate(entries: Seq<JsonValue>)
    ensures
        best_mp3(entries) matches Some(i) ==> {
            &&& 0 <= i < entries.len()
            &&& is_mp3(entries[i])
            &&& forall|j: int|
                0 <= j < entries.len() && #[trigger] is_mp3(entries[j]) ==> bitrate_of(entries[j])
                    <= bitrate_of(entries[i])
        },
        best_mp3(entries) is None <==> forall|j: int|
            0 <= j < entries.len() ==> !#[trigger] is_mp3(entries[j]),
    decreases entries.len(),
{
    if entries.len() > 0 {
        let init = entries.drop_last();
        let last = entries.len() - 1;
        best_mp3_is_highest_bitrate(init);
        assert forall|j: int| 0 <= j < init.len() implies init[j] == entries[j] by {}
        assert forall|j: int| 0 <= j < entries.len() && #[trigger] is_mp3(entries[j]) implies (
        j == last || is_mp3(init[j])) by {}
    }
}

/// A document whose answer sits under a `result` member reads as that
/// answer itself, for every kind of answer the service gives.
pub proof fn result_envelope_is_transparent(wrapped: JsonValue, inner: JsonValue)
    requires
        obj_get(wrapped, "result"@) == Some(inner),
        obj_get(inner, "result"@) is None,
    ensures
        payload(wrapped) == inner,
        payload(inner) == inner,
        account_of(wrapped) == account_of(inner),
        liked_of(wrapped) == liked_of(inner),
        track_list_of(wrapped) == track_list_of(inner),
        wave_stations_of(wrapped) == wave_stations_of(inner),
        station_tracks_of(wrapped) == station_tracks_of(inner),
        download_source_of(wrapped) == download_source_of(inner),
        search_results_of(wrapped) == search_results_of(inner),
{
}

/// The address of the download-info document to fetch.
pub fn download_source_from_json(value: &JsonValue) -> (r: Result<String, ApiError>)
    ensures
        result_view(r) == download_source_of(*value),
{
    let entries = match items_of(Some(payload_of(value))) {
        Some(e) => e,
        None => return Err(ApiError::MissingField("download-info[]")),
    };
    let mut best: Option<usize> = None;
    let mut best_rate: u64 = 0;
    let mut i: usize = 0;
    while i < entries.len()
        invariant
            i <= entries.len(),
            match best {
                Some(b) => best_mp3(entries@.take(i as int)) == Some(b as int) && b < i
                    && best_rate == bitrate_of(entries@[b as int]),
                None => best_mp3(entries@.take(i as int)) is None,
            },
        decreases entries.len() - i,
    {
        let e = &entries[i];
        assert(entries@.take(i + 1).drop_last() =~= entries@.take(i as int));
        proof {
            reveal_strlit("mp3");
        }
        let mp3 = match string_member(e, "codec") {
            Some(c) => crate::text::str_equal(c, "mp3"),
            None => false,
        };
        if mp3 {
            let rate = match u64_of(get(e, "bitrateInKbps")) {
                Some(b) => b,
                None => 0,
            };
            match best {
                None => {
                    best = Some(i);
                    best_rate = rate;
                },
                Some(b) => {
                    if rate >= best_rate {
                        best = Some(i);
                        best_rate = rate;
                    }
                },
            }
        }
        i = i + 1;
    }
    assert(entries@.take(entries.len() as int) =~= entries@);
    let chosen = match best {
        Some(b) => &entries[b],
        None => {
            if entries.len() > 0 {
                &entries[0]
            } else {
                return Err(ApiError::MissingField("downloadInfoUrl"));
            }
        },
    };
    match string_member(chosen, "downloadInfoUrl") {
        Some(u) => Ok(String::from_str(u)),
        None => Err(ApiError::MissingField("downloadInfoUrl")),
    }
}

/// The address of the download-info document named by a download-info answer.
pub fn download_source_from_body(body: &str) -> (r: Result<String, ApiError>)
    ensures
        result_view(r) == with_document(body@, |v: JsonValue| download_source_of(v)),
{
    match parse_json(body) {
        Ok(v) => download_source_from_json(&v),
        Err(m) => Err(ApiError::Parse(m)),
    }
}

/// The tracks of a search document.
pub fn search_results_from_json(value: &JsonValue) -> (r: Vec<TrackSummary>)
    ensures
        r.deep_view() == search_results_of(*value),
{
    match items_of(get_opt(get(payload_of(value), "tracks"), "results")) {
        Some(items) => parse_track_list(items),
        None => {
            let empty: Vec<TrackSummary> = Vec::new();
            empty
        },
    }
}

/// The tracks of a search answer.
pub fn search_results_from_body(body: &str) -> (r: Result<Vec<TrackSummary>, ApiError>)
    ensures
        result_view(r) == with_document(
            body@,
            |v: JsonValue| Ok::<Seq<TrackView>, ApiErrorView>(search_results_of(v)),
        ),
{
    match parse_json(body) {
        Ok(v) => Ok(search_results_from_json(&v)),
        Err(m) => Err(ApiError::Parse(m)),
    }
}

} // verus!
