//! How the window shows tracks, accounts, time and volume.
use vstd::prelude::*;
use vstd::string::*;

use crate::api::{AccountStatus, AccountView, StationView, TrackSummary, TrackView, WaveStation};
use crate::controller::{opt_str, QueueSource};
use crate::player::queue_label;
use crate::download::{find_chars, find_from};
use crate::text::{
    char_is_space, chars_of, decimal, digit_char, is_space, join_strings, join_with, push_char,
    push_decimal, str_equal, string_of, texts, trim, trim_str,
};

verus! {

/// Whether `track` is the current track: the same id, and the same album
/// where both name one.
pub open spec fn same_track(current: Option<TrackView>, track: TrackView) -> bool {
    match current {
        Some(c) => c.id == track.id && (c.album_id == track.album_id || c.album_id is None
            || track.album_id is None),
        None => false,
    }
}

/// The text of an optional string.
pub open spec fn opt_text(o: Option<String>) -> Option<Seq<char>> {
    match o {
        Some(s) => Some(s@),
        None => None,
    }
}

fn same_option_text(a: &Option<String>, b: &Option<String>) -> (r: bool)
    ensures
        r == (opt_text(*a) == opt_text(*b)),
{
    match a {
        Some(x) => match b {
            Some(y) => str_equal(x.as_str(), y.as_str()),
            None => false,
        },
        None => b.is_none(),
    }
}

/// Whether `track` is the current track.
pub fn is_same_track(current: Option<&TrackSummary>, track: &TrackSummary) -> (r: bool)
    ensures
        r == same_track(
            match current {
                Some(c) => Some(c.deep_view()),
                None => None,
            },
            track.deep_view(),
        ),
{
    match current {
        Some(c) => c.id == track.id && (same_option_text(&c.album_id, &track.album_id)
            || c.album_id.is_none() || track.album_id.is_none()),
        None => false,
    }
}

/// Whether two stations are the same: the same type and tag.
pub open spec fn same_station_view(left: StationView, right: StationView) -> bool {
    left.station_type == right.station_type && left.tag == right.tag
}

/// Whether two stations are the same.
pub fn same_station(left: &WaveStation, right: &WaveStation) -> (r: bool)
    ensures
        r == same_station_view(left.deep_view(), right.deep_view()),
{
    left.station_type == right.station_type && left.tag == right.tag
}

/// The first character of every word of `s`, words being runs of
/// characters other than white space.
pub open spec fn word_starts(s: Seq<char>) -> Seq<char>
    decreases s.len(),
{
    if s.len() == 0 {
        seq![]
    } else {
        let r = word_starts(s.drop_last());
        let n = s.len() as int;
        if !is_space(s[n - 1]) && (n == 1 || is_space(s[n - 2])) {
            r.push(s[n - 1])
        } else {
            r
        }
    }
}

/// `s` in upper case, as `str::to_uppercase` maps it.
pub uninterp spec fn uppercase(s: Seq<char>) -> Seq<char>;

/// `s` in upper case.
/// Calls `str::to_uppercase`, whose mapping (Unicode's, with its
/// multi-character cases) the contract leaves unstated: it claims that the
/// result depends on `s` alone.
#[verifier::external_body]
fn to_uppercase(s: &str) -> (r: String)
    ensures
        r@ == uppercase(s@),
{
    s.to_uppercase()
}

/// The text the initials are taken from: the display name, or the login
/// where the display name is blank.
pub open spec fn initials_source(a: AccountView) -> Seq<char> {
    if trim(a.display_name).len() == 0 {
        a.login
    } else {
        a.display_name
    }
}

/// The first letters of the first two words of the initials' source.
pub open spec fn initial_letters_of(a: AccountView) -> Seq<char> {
    let w = word_starts(initials_source(a));
    if w.len() > 2 {
        w.take(2)
    } else {
        w
    }
}

/// The initials shown for an account: the first letters of its first two
/// words in upper case, or `Я` where it has none.
pub open spec fn initials_of(a: AccountView) -> Seq<char> {
    let t = initial_letters_of(a);
    if t.len() == 0 {
        "Я"@
    } else {
        uppercase(t)
    }
}

/// The first letters of the first two words of the account's display
/// name, or of its login where the display name is blank.
pub fn account_initial_letters(account: &AccountStatus) -> (r: String)
    ensures
        r@ == initial_letters_of(account.deep_view()),
{
    let trimmed = trim_str(account.display_name.as_str());
    let source = if trimmed.as_str().is_empty() {
        chars_of(account.login.as_str())
    } else {
        chars_of(account.display_name.as_str())
    };
    let mut starts: Vec<char> = Vec::new();
    let mut i: usize = 0;
    while i < source.len()
        invariant
            i <= source.len(),
            starts@ == word_starts(source@.take(i as int)),
        decreases source.len() - i,
    {
        assert(source@.take(i + 1).drop_last() =~= source@.take(i as int));
        if !char_is_space(source[i]) && (i == 0 || char_is_space(source[i - 1])) {
            starts.push(source[i]);
        }
        i = i + 1;
    }
    assert(source@.take(source.len() as int) =~= source@);
    let n: usize = if starts.len() > 2 {
        2
    } else {
        starts.len()
    };
    string_of(&starts, 0, n)
}

/// The initials shown for an account.
pub fn account_initials(account: &AccountStatus) -> (r: String)
    ensures
        r@ == initials_of(account.deep_view()),
{
    let letters = account_initial_letters(account);
    if letters.as_str().is_empty() {
        return String::from_str("Я");
    }
    to_uppercase(letters.as_str())
}

/// The play/pause button: pause while playing, play otherwise.
pub fn play_pause_button_label(is_playing: bool) -> (r: &'static str)
    ensures
        r@ == if is_playing {
            "⏸"@
        } else {
            "▶"@
        },
{
    if is_playing {
        "⏸"
    } else {
        "▶"
    }
}

/// The text of the player bar: the current track, or a placeholder.
pub fn current_track_bar_text(track: Option<&str>) -> (r: &str)
    ensures
        r@ == match track {
            Some(t) => t@,
            None => "Трек не выбран"@,
        },
{
    match track {
        Some(t) => t,
        None => "Трек не выбран",
    }
}

/// `m:ss` for a duration of `total_seconds` seconds.
pub open spec fn duration_text(total_seconds: nat) -> Seq<char> {
    let seconds: nat = total_seconds % 60;
    decimal(total_seconds / 60) + seq![':', digit_char(seconds / 10), digit_char(seconds % 10)]
}

/// `m:ss` for a duration of `total_seconds` whole seconds.
pub fn format_duration(total_seconds: u64) -> (r: String)
    ensures
        r@ == duration_text(total_seconds as nat),
{
    let minutes: u64 = total_seconds / 60;
    let seconds: u64 = total_seconds % 60;
    let mut s = String::new();
    push_decimal(&mut s, minutes);
    push_char(&mut s, ':');
    push_char(&mut s, (48u8 + (seconds / 10) as u8) as char);
    push_char(&mut s, (48u8 + (seconds % 10) as u8) as char);
    s
}

/// The icon of a volume level.
pub open spec fn volume_icon_text(volume_percent: u8) -> Seq<char> {
    if volume_percent == 0 {
        "🔇"@
    } else if volume_percent <= 60 {
        "🔈"@
    } else if volume_percent <= 100 {
        "🔉"@
    } else {
        "🔊"@
    }
}

/// The icon of a volume level.
pub fn volume_icon(volume_percent: u8) -> (r: &'static str)
    ensures
        r@ == volume_icon_text(volume_percent),
{
    if volume_percent == 0 {
        "🔇"
    } else if volume_percent <= 60 {
        "🔈"
    } else if volume_percent <= 100 {
        "🔉"
    } else {
        "🔊"
    }
}

/// Whether `pat` occurs in `s`.
pub open spec fn contains_text(s: Seq<char>, pat: Seq<char>) -> bool {
    find_from(s, pat, 0) is Some
}

/// Whether an error of the browser scripting says that access was refused.
pub open spec fn permission_error(error: Seq<char>) -> bool {
    ||| contains_text(error, "not allowed assistive access"@)
    ||| contains_text(error, "Not authorized"@)
    ||| contains_text(error, "not authorised"@)
    ||| contains_text(error, "is not allowed"@)
    ||| contains_text(error, "не разрешено"@)
}

fn holds_text(s: &Vec<char>, pat: &str) -> (r: bool)
    ensures
        r == contains_text(s@, pat@),
{
    let p = chars_of(pat);
    find_chars(s, &p, 0).is_some()
}

/// Whether an error of the browser scripting says that access was refused.
pub fn is_permission_error(error: &str) -> (r: bool)
    ensures
        r == permission_error(error@),
{
    let s = chars_of(error);
    holds_text(&s, "not allowed assistive access") || holds_text(&s, "Not authorized")
        || holds_text(&s, "not authorised") || holds_text(&s, "is not allowed") || holds_text(
        &s,
        "не разрешено",
    )
}

/// The line under the wave heading.
pub open spec fn wave_label_text(source: QueueSource, is_playing: bool, has_wave_tracks: bool) -> Seq<char> {
    if source == QueueSource::Wave && is_playing {
        "Волна играет"@
    } else if !has_wave_tracks {
        "Выберите подборку или запустите свою волну."@
    } else {
        "Волна готова. Нажмите play."@
    }
}

/// The line under the wave heading: playing, ready, or how to start it.
pub fn wave_label(source: QueueSource, is_playing: bool, has_wave_tracks: bool) -> (r: &'static str)
    ensures
        r@ == wave_label_text(source, is_playing, has_wave_tracks),
{
    if source == QueueSource::Wave && is_playing {
        "Волна играет"
    } else if !has_wave_tracks {
        "Выберите подборку или запустите свою волну."
    } else {
        "Волна готова. Нажмите play."
    }
}

/// Whether the token row shows: while no one is signed in, except while a
/// sign-in with an entered token is under way.
pub fn shows_token_row(has_account: bool, busy: bool, token_input: &str) -> (r: bool)
    ensures
        r == (!has_account && !(busy && trim(token_input@).len() > 0)),
{
    let entered = !trim_str(token_input).as_str().is_empty();
    !has_account && !(busy && entered)
}

/// The status that asks for a token.
pub open spec fn sign_in_prompt() -> Seq<char> {
    "Введите OAuth token и проверьте вход"@
}

/// Global media keys as registered: not tried (`None`), registered with
/// these warnings, or unavailable for this reason.
pub open spec fn hotkeys_view(hotkeys: Option<Result<&Vec<String>, &str>>) -> Option<
    Result<Seq<Seq<char>>, Seq<char>>,
> {
    match hotkeys {
        None => None,
        Some(Ok(w)) => Some(Ok(texts(w@))),
        Some(Err(e)) => Some(Err(e@)),
    }
}

/// The status about global media keys.
pub open spec fn hotkey_status_text(hotkeys: Option<Result<Seq<Seq<char>>, Seq<char>>>) -> Seq<char> {
    match hotkeys {
        None => sign_in_prompt(),
        Some(Ok(w)) => if w.len() == 0 {
            sign_in_prompt()
        } else {
            "Часть глобальных клавиш не зарегистрировалась: "@ + join_with(w, "; "@)
        },
        Some(Err(e)) => "Глобальные media keys недоступны: "@ + e + ". В окне работают Space и стрелки."@,
    }
}

/// The first status of the window: about the system's media controls where
/// they failed, then about the global media keys.
pub open spec fn startup_status_text(
    media_error: Option<Seq<char>>,
    hotkeys: Option<Result<Seq<Seq<char>>, Seq<char>>>,
) -> Seq<char> {
    match media_error {
        Some(e) => "Системные media keys недоступны: "@ + e + ". "@ + hotkey_status_text(hotkeys),
        None => hotkey_status_text(hotkeys),
    }
}

/// The first status of the window.
pub fn startup_status(media_error: Option<&str>, hotkeys: Option<Result<&Vec<String>, &str>>) -> (r: String)
    ensures
        r@ == startup_status_text(opt_str(media_error), hotkeys_view(hotkeys)),
{
    let keys = match hotkeys {
        None => String::from_str("Введите OAuth token и проверьте вход"),
        Some(Ok(w)) => if w.len() == 0 {
            String::from_str("Введите OAuth token и проверьте вход")
        } else {
            let mut m = String::from_str("Часть глобальных клавиш не зарегистрировалась: ");
            let joined = join_strings(w, "; ");
            m.append(joined.as_str());
            m
        },
        Some(Err(e)) => {
            let mut m = String::from_str("Глобальные media keys недоступны: ");
            m.append(e);
            m.append(". В окне работают Space и стрелки.");
            m
        },
    };
    match media_error {
        Some(e) => {
            let mut m = String::from_str("Системные media keys недоступны: ");
            m.append(e);
            m.append(". ");
            m.append(keys.as_str());
            m
        },
        None => keys,
    }
}

/// The text of a track's row: `artist — title`, after `▶ ` where it is marked.
pub open spec fn track_row_text(track: TrackView, marked: bool) -> Seq<char> {
    (if marked {
        "▶ "@
    } else {
        seq![]
    }) + queue_label(track)
}

/// The text of a track's row in the liked list (marked where it is the
/// current track) or in the search results (never marked).
pub fn track_row_label(track: &TrackSummary, marked: bool) -> (r: String)
    ensures
        r@ == track_row_text(track.deep_view(), marked),
{
    let mut row = if marked {
        String::from_str("▶ ")
    } else {
        String::new()
    };
    row.append(track.artist.as_str());
    row.append(" — ");
    row.append(track.title.as_str());
    row
}

} // verus!
