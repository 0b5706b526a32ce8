//! Signing in: the authorization address and reading a token out of what
//! the user pastes or the browser shows.
use vstd::prelude::*;
use vstd::string::*;

use crate::text::{
    chars_of, non_empty, non_empty_is_clean, non_empty_str, no_edge_space, string_of, trim,
    trim_is_subrange, trim_offset, trim_str,
};

verus! {

/// The application's OAuth client id.
pub const YANDEX_MUSIC_CLIENT_ID: &'static str = "23cabbbdc6cd418abb4b39c32c41195d";

/// The address that starts the implicit OAuth flow.
pub open spec fn authorize_url_text() -> Seq<char> {
    "https://oauth.yandex.ru/authorize?response_type=token&client_id="@ + YANDEX_MUSIC_CLIENT_ID@
}

/// The address that starts the implicit OAuth flow.
pub fn authorize_url() -> (r: String)
    ensures
        r@ == authorize_url_text(),
{
    let mut url = String::from_str("https://oauth.yandex.ru/authorize?response_type=token&client_id=");
    url.append(YANDEX_MUSIC_CLIENT_ID);
    url
}

/// The characters that separate the parameters of an address: `?`, `#`, `&`.
pub open spec fn is_param_separator(c: char) -> bool {
    c == '?' || c == '#' || c == '&'
}

/// The pieces of `s` between separators, as `split` gives them (so at
/// least one). Splitting at `?` and `#` and then each part at `&` gives
/// these same pieces, in this order.
pub open spec fn param_pieces(s: Seq<char>) -> Seq<Seq<char>>
    decreases s.len(),
{
    if s.len() == 0 {
        seq![seq![]]
    } else {
        let r = param_pieces(s.drop_last());
        if is_param_separator(s.last()) {
            r.push(seq![])
        } else {
            r.update(r.len() - 1, r.last().push(s.last()))
        }
    }
}

/// The index of the first `=` in `p` at or after `i`.
pub open spec fn first_equals(p: Seq<char>, i: int) -> Option<int>
    decreases p.len() - i,
{
    if i < 0 || i >= p.len() {
        None
    } else if p[i] == '=' {
        Some(i)
    } else {
        first_equals(p, i + 1)
    }
}

/// Among `pieces[i..]`, the first `key=value` whose key is `name`: `Some`
/// of its trimmed value (itself `None` where blank), or `None` if none.
pub open spec fn param_from(pieces: Seq<Seq<char>>, name: Seq<char>, i: int) -> Option<
    Option<Seq<char>>,
>
    decreases pieces.len() - i,
{
    if i < 0 || i >= pieces.len() {
        None
    } else {
        match first_equals(pieces[i], 0) {
            Some(k) => if pieces[i].take(k) == name {
                Some(non_empty(pieces[i].skip(k + 1)))
            } else {
                param_from(pieces, name, i + 1)
            },
            None => param_from(pieces, name, i + 1),
        }
    }
}

/// The trimmed value of the first parameter `name` of `input`.
pub open spec fn param_value(input: Seq<char>, name: Seq<char>) -> Option<Seq<char>> {
    match param_from(param_pieces(input), name, 0) {
        Some(v) => v,
        None => None,
    }
}

/// What follows `OAuth ` at the start of `s`.
pub open spec fn after_oauth_prefix(s: Seq<char>) -> Option<Seq<char>> {
    if s.len() >= 6 && s.take(6) == "OAuth "@ {
        Some(s.skip(6))
    } else {
        None
    }
}

/// The token in what the user entered: after an `OAuth ` prefix, else the
/// `access_token` parameter of an address, else the whole trimmed text.
pub open spec fn oauth_token_of(input: Seq<char>) -> Option<Seq<char>> {
    let t = trim(input);
    if t.len() == 0 {
        None
    } else {
        match after_oauth_prefix(t) {
            Some(rest) => non_empty(rest),
            None => match param_value(t, "access_token"@) {
                Some(token) => Some(token),
                None => non_empty(t),
            },
        }
    }
}

/// The `access_token` parameter of an address the browser shows.
pub open spec fn redirect_token_of(input: Seq<char>) -> Option<Seq<char>> {
    param_value(trim(input), "access_token"@)
}

/// The texts of a list of character vectors.
pub open spec fn views(v: Seq<Vec<char>>) -> Seq<Seq<char>> {
    v.map_values(|p: Vec<char>| p@)
}

/// The pieces of `s` between `?`, `#` and `&`.
fn split_params(s: &Vec<char>) -> (r: Vec<Vec<char>>)
    ensures
        views(r@) == param_pieces(s@),
{
    let mut pieces: Vec<Vec<char>> = Vec::new();
    let mut current: Vec<char> = Vec::new();
    let mut i: usize = 0;
    while i < s.len()
        invariant
            i <= s.len(),
            views(pieces@).push(current@) == param_pieces(s@.take(i as int)),
        decreases s.len() - i,
    {
        let c = s[i];
        let ghost before = views(pieces@).push(current@);
        assert(s@.take(i + 1).drop_last() =~= s@.take(i as int));
        if c == '?' || c == '#' || c == '&' {
            let done = current;
            pieces.push(done);
            current = Vec::new();
        } else {
            current.push(c);
            assert(views(pieces@).push(current@) =~= before.update(
                before.len() - 1,
                before.last().push(c),
            ));
        }
        i = i + 1;
    }
    assert(s@.take(s.len() as int) =~= s@);
    pieces.push(current);
    pieces
}

/// Whether `a` and `b[lo..hi]` hold the same characters.
fn same_chars(a: &Vec<char>, b: &Vec<char>, lo: usize, hi: usize) -> (r: bool)
    requires
        lo <= hi <= b.len(),
    ensures
        r == (a@ == b@.subrange(lo as int, hi as int)),
{
    if a.len() != hi - lo {
        return false;
    }
    let mut i: usize = 0;
    while i < a.len()
        invariant
            a.len() == hi - lo,
            lo <= hi <= b.len(),
            i <= a.len(),
            forall|j: int| 0 <= j < i ==> a@[j] == b@[lo + j],
        decreases a.len() - i,
    {
        if a[i] != b[lo + i] {
            return false;
        }
        i = i + 1;
    }
    assert(a@ =~= b@.subrange(lo as int, hi as int));
    true
}

/// The trimmed value of the first parameter `name` of `input`.
fn find_param(input: &str, name: &str) -> (r: Option<String>)
    ensures
        match r {
            Some(v) => param_value(input@, name@) == Some(v@),
            None => param_value(input@, name@) is None,
        },
{
    let chars = chars_of(input);
    let name_chars = chars_of(name);
    let pieces = split_params(&chars);
    let mut i: usize = 0;
    while i < pieces.len()
        invariant
            i <= pieces.len(),
            views(pieces@) == param_pieces(input@),
            name_chars@ == name@,
            param_from(param_pieces(input@), name@, 0) == param_from(
                param_pieces(input@),
                name@,
                i as int,
            ),
        decreases pieces.len() - i,
    {
        let piece = &pieces[i];
        let mut k: usize = 0;
        while k < piece.len() && piece[k] != '='
            invariant
                k <= piece.len(),
                first_equals(piece@, 0) == first_equals(piece@, k as int),
            decreases piece.len() - k,
        {
            k = k + 1;
        }
        if k < piece.len() {
            if same_chars(&name_chars, piece, 0, k) {
                let value = string_of(piece, k + 1, piece.len());
                return non_empty_str(value.as_str());
            }
        }
        i = i + 1;
    }
    None
}

/// The token in what the user entered: after an `OAuth ` prefix, else the
/// `access_token` parameter of an address, else the whole trimmed text.
pub fn extract_oauth_token(input: &str) -> (r: Option<String>)
    ensures
        match r {
            Some(t) => oauth_token_of(input@) == Some(t@),
            None => oauth_token_of(input@) is None,
        },
{
    let trimmed = trim_str(input);
    let chars = chars_of(trimmed.as_str());
    if chars.len() == 0 {
        return None;
    }
    proof {
        reveal_strlit("OAuth ");
    }
    let prefix = chars_of("OAuth ");
    if chars.len() >= 6 && same_chars(&prefix, &chars, 0, 6) {
        let rest = string_of(&chars, 6, chars.len());
        return non_empty_str(rest.as_str());
    }
    match find_param(trimmed.as_str(), "access_token") {
        Some(token) => Some(token),
        None => non_empty_str(trimmed.as_str()),
    }
}

/// The `access_token` parameter of an address the browser shows.
pub fn extract_oauth_token_from_redirect(input: &str) -> (r: Option<String>)
    ensures
        match r {
            Some(t) => redirect_token_of(input@) == Some(t@),
            None => redirect_token_of(input@) is None,
        },
{
    let trimmed = trim_str(input);
    find_param(trimmed.as_str(), "access_token")
}

} // verus!

verus! {

proof fn lemma_param_from_clean(pieces: Seq<Seq<char>>, name: Seq<char>, i: int)
    ensures
        param_from(pieces, name, i) matches Some(Some(t)) ==> t.len() > 0 && trim(t) == t
            && no_edge_space(t),
    decreases pieces.len() - i,
{
    if 0 <= i < pieces.len() {
        match first_equals(pieces[i], 0) {
            Some(k) => {
                non_empty_is_clean(pieces[i].skip(k + 1));
                lemma_param_from_clean(pieces, name, i + 1);
            },
            None => lemma_param_from_clean(pieces, name, i + 1),
        }
    }
}

/// A token read out of the user's input is never empty and never has white
/// space at either end, whichever way it was found.
pub proof fn extracted_tokens_are_clean(input: Seq<char>)
    ensures
        oauth_token_of(input) matches Some(t) ==> t.len() > 0 && trim(t) == t,
        redirect_token_of(input) matches Some(t) ==> t.len() > 0 && trim(t) == t,
{
    let t = trim(input);
    lemma_param_from_clean(param_pieces(t), "access_token"@, 0);
    non_empty_is_clean(t);
    match after_oauth_prefix(t) {
        Some(rest) => non_empty_is_clean(rest),
        None => {},
    }
}

/// Where the browser's address carries a token and the input has no
/// `OAuth ` prefix, reading the input as the user's entry finds the same
/// token.
pub proof fn redirect_token_agrees(input: Seq<char>)
    requires
        redirect_token_of(input) is Some,
        after_oauth_prefix(trim(input)) is None,
    ensures
        oauth_token_of(input) == redirect_token_of(input),
{
    let t = trim(input);
    if t.len() == 0 {
        assert(param_from(param_pieces(t), "access_token"@, 1) is None);
    }
}

/// Whether `pat` occurs somewhere in `s`.
pub open spec fn holds_text(s: Seq<char>, pat: Seq<char>) -> bool {
    exists|j: int| 0 <= j && j + pat.len() <= s.len() && #[trigger] s.subrange(j, j + pat.len()) == pat
}

/// Where each piece of `param_pieces(s)` starts in `s`.
pub open spec fn piece_starts(s: Seq<char>) -> Seq<int>
    decreases s.len(),
{
    if s.len() == 0 {
        seq![0]
    } else {
        let r = piece_starts(s.drop_last());
        if is_param_separator(s.last()) {
            r.push(s.len() as int)
        } else {
            r
        }
    }
}

/// Whether `p` is the part of `s` that starts at `start`, and holds no separator.
pub open spec fn piece_at(s: Seq<char>, p: Seq<char>, start: int) -> bool {
    &&& 0 <= start
    &&& start + p.len() <= s.len()
    &&& s.subrange(start, start + p.len()) == p
    &&& forall|k: int| 0 <= k < p.len() ==> !is_param_separator(#[trigger] p[k])
}

proof fn lemma_pieces_in_text(s: Seq<char>)
    ensures
        piece_starts(s).len() == param_pieces(s).len(),
        param_pieces(s).len() > 0,
        piece_starts(s).last() + param_pieces(s).last().len() == s.len(),
        forall|i: int|
            0 <= i < param_pieces(s).len() ==> piece_at(
                s,
                #[trigger] param_pieces(s)[i],
                piece_starts(s)[i],
            ),
    decreases s.len(),
{
    if s.len() == 0 {
        assert(piece_at(s, param_pieces(s)[0], piece_starts(s)[0])) by {
            assert(s.subrange(0, 0) =~= param_pieces(s)[0]);
        }
    } else {
        let t = s.drop_last();
        lemma_pieces_in_text(t);
        let r = param_pieces(t);
        let st = piece_starts(t);
        let c = s.last();
        assert forall|i: int| 0 <= i < r.len() - 1 implies piece_at(s, r[i], st[i]) by {
            assert(piece_at(t, r[i], st[i]));
            assert(s.subrange(st[i], st[i] + r[i].len()) =~= t.subrange(st[i], st[i] + r[i].len()));
        }
        let l = r.len() - 1;
        if is_param_separator(c) {
            assert(piece_at(t, r[l], st[l]));
            assert(s.subrange(st[l], st[l] + r[l].len()) =~= t.subrange(st[l], st[l] + r[l].len()));
            assert(s.subrange(s.len() as int, s.len() as int) =~= Seq::<char>::empty());
            assert forall|i: int| 0 <= i < param_pieces(s).len() implies piece_at(
                s,
                #[trigger] param_pieces(s)[i],
                piece_starts(s)[i],
            ) by {
                if i < l {
                    assert(param_pieces(s)[i] == r[i]);
                }
            }
        } else {
            assert(piece_at(t, r[l], st[l]));
            let p = r[l].push(c);
            assert(s.subrange(st[l], st[l] + p.len()) =~= t.subrange(st[l], st[l] + r[l].len()).push(c));
            assert forall|k: int| 0 <= k < p.len() implies !is_param_separator(#[trigger] p[k]) by {
                if k < r[l].len() {
                    assert(p[k] == r[l][k]);
                }
            }
            assert(piece_at(s, p, st[l]));
            assert forall|i: int| 0 <= i < param_pieces(s).len() implies piece_at(
                s,
                #[trigger] param_pieces(s)[i],
                piece_starts(s)[i],
            ) by {
                if i < l {
                    assert(param_pieces(s)[i] == r[i]);
                }
            }
        }
    }
}

proof fn lemma_first_equals(p: Seq<char>, i: int)
    ensures
        first_equals(p, i) matches Some(k) ==> i <= k < p.len() && p[k] == '=',
    decreases p.len() - i,
{
    if 0 <= i < p.len() && p[i] != '=' {
        lemma_first_equals(p, i + 1);
    }
}

/// What a found parameter comes from: a piece `name=value` of the pieces,
/// whose trimmed value it is.
proof fn lemma_param_from_piece(pieces: Seq<Seq<char>>, name: Seq<char>, i: int)
    ensures
        param_from(pieces, name, i) matches Some(Some(t)) ==> exists|j: int, k: int|
            i <= j < pieces.len() && 0 <= k < pieces[j].len() && pieces[j][k] == '='
                && #[trigger] pieces[j].take(k) == name && non_empty(#[trigger] pieces[j].skip(k + 1))
                == Some(t),
    decreases pieces.len() - i,
{
    if 0 <= i < pieces.len() {
        lemma_first_equals(pieces[i], 0);
        lemma_param_from_piece(pieces, name, i + 1);
        match first_equals(pieces[i], 0) {
            Some(k) => if pieces[i].take(k) == name {
                assert(pieces[i].take(k) == name && non_empty(pieces[i].skip(k + 1)) == non_empty(
                    pieces[i].skip(k + 1),
                ));
            },
            None => {},
        }
    }
}

/// A token read from a browser address comes from an address that holds
/// `access_token=`; it is not empty, has no white space at its ends, and
/// holds none of `&`, `?` and `#`; and where the input has no `OAuth `
/// prefix, reading it as the user's entry gives the same token.
pub proof fn redirect_tokens_come_from_the_parameter(input: Seq<char>)
    ensures
        redirect_token_of(input) matches Some(t) ==> {
            &&& holds_text(input, "access_token="@)
            &&& t.len() > 0
            &&& trim(t) == t
            &&& forall|k: int| 0 <= k < t.len() ==> !is_param_separator(#[trigger] t[k])
            &&& (after_oauth_prefix(trim(input)) is None ==> oauth_token_of(input) == Some(t))
        },
{
    extracted_tokens_are_clean(input);
    if redirect_token_of(input) is Some {
        let t = redirect_token_of(input)->0;
        if after_oauth_prefix(trim(input)) is None {
            redirect_token_agrees(input);
        }
        let s = trim(input);
        let pieces = param_pieces(s);
        let name = "access_token"@;
        lemma_pieces_in_text(s);
        lemma_param_from_piece(pieces, name, 0);
        let (j, k) = choose|j: int, k: int|
            0 <= j < pieces.len() && 0 <= k < pieces[j].len() && pieces[j][k] == '='
                && #[trigger] pieces[j].take(k) == name && non_empty(#[trigger] pieces[j].skip(k + 1))
                == Some(t);
        let p = pieces[j];
        let start = piece_starts(s)[j];
        assert(piece_at(s, p, start));
        // `name=` lies at the start of the piece, and so in the trimmed input.
        reveal_strlit("access_token=");
        reveal_strlit("access_token");
        assert(p.subrange(0, k + 1) =~= p.take(k).push(p[k]));
        assert(name.push('=') =~= "access_token="@);
        assert(p.subrange(0, k + 1) == "access_token="@);
        assert(s.subrange(start, start + k + 1) =~= p.subrange(0, k + 1));
        trim_is_subrange(input);
        let a = trim_offset(input);
        assert(input.subrange(a + start, a + start + k + 1) =~= s.subrange(start, start + k + 1));
        assert(k + 1 == "access_token="@.len());
        assert(input.subrange(a + start, a + start + "access_token="@.len()) == "access_token="@);
        assert(holds_text(input, "access_token="@));
        // The token is part of the value, which holds no separator.
        let value = p.skip(k + 1);
        trim_is_subrange(value);
        let b = trim_offset(value);
        assert forall|m: int| 0 <= m < t.len() implies !is_param_separator(#[trigger] t[m]) by {
            assert(t[m] == value[b + m]);
            assert(value[b + m] == p[k + 1 + b + m]);
        }
    }
}

proof fn lemma_no_equals(p: Seq<char>, i: int)
    requires
        forall|k: int| 0 <= k < p.len() ==> p[k] != '=',
    ensures
        first_equals(p, i) is None,
    decreases p.len() - i,
{
    if 0 <= i < p.len() {
        lemma_no_equals(p, i + 1);
    }
}

proof fn lemma_no_param(pieces: Seq<Seq<char>>, name: Seq<char>, i: int)
    requires
        forall|j: int, k: int| 0 <= j < pieces.len() && 0 <= k < pieces[j].len() ==> #[trigger] pieces[j][k] != '=',
    ensures
        param_from(pieces, name, i) is None,
    decreases pieces.len() - i,
{
    if 0 <= i < pieces.len() {
        assert forall|k: int| 0 <= k < pieces[i].len() implies pieces[i][k] != '=' by {
            assert(pieces[i][k] != '=');
        }
        lemma_no_equals(pieces[i], 0);
        lemma_no_param(pieces, name, i + 1);
    }
}

/// Input without `=` holds no `access_token` parameter, so a bare token
/// gives no token read from a browser address.
pub proof fn no_equals_no_redirect_token(input: Seq<char>)
    requires
        forall|k: int| 0 <= k < input.len() ==> input[k] != '=',
    ensures
        redirect_token_of(input) is None,
{
    let s = trim(input);
    trim_is_subrange(input);
    let a = trim_offset(input);
    let pieces = param_pieces(s);
    lemma_pieces_in_text(s);
    assert forall|j: int, k: int| 0 <= j < pieces.len() && 0 <= k < pieces[j].len() implies #[trigger] pieces[j][k]
        != '=' by {
        let st = piece_starts(s)[j];
        assert(piece_at(s, pieces[j], st));
        assert(pieces[j][k] == s.subrange(st, st + pieces[j].len())[k]);
        assert(s[st + k] == input[a + st + k]);
    }
    lemma_no_param(pieces, "access_token"@, 0);
}

} // verus!
