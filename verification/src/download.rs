//! Reading the download-info document and signing the MP3 address.
use vstd::prelude::*;
use vstd::string::*;

use crate::api::{ApiError, ApiErrorView};
use crate::text::{chars_of, push_chars, string_of, trim, trim_bounds};

verus! {

/// The parts of a download-info document that the signed address is made of.
#[derive(Debug, Clone, PartialEq, Eq)]
pub struct DownloadInfo {
    pub host: String,
    pub path: String,
    pub s: String,
    pub ts: String,
}

/// `DownloadInfo` as plain text.
pub struct DownloadInfoView {
    pub host: Seq<char>,
    pub path: Seq<char>,
    pub s: Seq<char>,
    pub ts: Seq<char>,
}

impl DeepView for DownloadInfo {
    type V = DownloadInfoView;

    open spec fn deep_view(&self) -> DownloadInfoView {
        DownloadInfoView { host: self.host@, path: self.path@, s: self.s@, ts: self.ts@ }
    }
}

/// The salt that the signature starts with.
pub const SIGN_SALT: &'static str = "XGRlBW9FXlekgbPrRHuSiA";

/// Whether `pat` occurs in `s` at index `i`.
pub open spec fn occurs_at(s: Seq<char>, pat: Seq<char>, i: int) -> bool {
    0 <= i && i + pat.len() <= s.len() && s.subrange(i, i + pat.len()) == pat
}

/// The first index at or after `i` where `pat` occurs in `s`.
pub open spec fn find_from(s: Seq<char>, pat: Seq<char>, i: int) -> Option<int>
    decreases s.len() + 1 - i,
{
    if i < 0 || i + pat.len() > s.len() {
        None
    } else if occurs_at(s, pat, i) {
        Some(i)
    } else {
        find_from(s, pat, i + 1)
    }
}

/// `<tag>`.
pub open spec fn open_tag(tag: Seq<char>) -> Seq<char> {
    seq!['<'] + tag + seq!['>']
}

/// `</tag>`.
pub open spec fn close_tag(tag: Seq<char>) -> Seq<char> {
    seq!['<', '/'] + tag + seq!['>']
}

/// The trimmed text between the first `<tag>` of `xml` and the first
/// `</tag>` after it.
pub open spec fn tag_text(xml: Seq<char>, tag: Seq<char>) -> Option<Seq<char>> {
    match find_from(xml, open_tag(tag), 0) {
        None => None,
        Some(i) => {
            let start = i + open_tag(tag).len();
            match find_from(xml, close_tag(tag), start) {
                None => None,
                Some(end) => Some(trim(xml.subrange(start, end))),
            }
        },
    }
}

/// What `parse_download_xml` gives for `xml`.
pub open spec fn download_info_of(xml: Seq<char>) -> Result<DownloadInfoView, ApiErrorView> {
    match (
        tag_text(xml, "host"@),
        tag_text(xml, "path"@),
        tag_text(xml, "s"@),
        tag_text(xml, "ts"@),
    ) {
        (None, _, _, _) => Err(ApiErrorView::MissingField("host"@)),
        (Some(_), None, _, _) => Err(ApiErrorView::MissingField("path"@)),
        (Some(_), Some(_), None, _) => Err(ApiErrorView::MissingField("s"@)),
        (Some(_), Some(_), Some(_), None) => Err(ApiErrorView::MissingField("ts"@)),
        (Some(host), Some(path), Some(s), Some(ts)) => Ok(
            DownloadInfoView { host, path, s, ts },
        ),
    }
}

/// The lower-case hexadecimal MD5 digest of `data`, as `md5` computes it.
pub uninterp spec fn md5_lower_hex(data: Seq<u8>) -> Seq<char>;

/// Whether `c` is one of `0-9a-f`.
pub open spec fn is_lower_hex_digit(c: char) -> bool {
    ('0' <= c && c <= '9') || ('a' <= c && c <= 'f')
}

/// The MD5 digest of `data` in lower-case hexadecimal.
/// Calls `md5::compute` and formats the `Digest` with `{:x}`, which the
/// crate's source writes as the 16 digest bytes, two digits each (`{:02x}`).
#[verifier::external_body]
fn md5_hex(data: &[u8]) -> (r: String)
    ensures
        r@ == md5_lower_hex(data@),
        r@.len() == 32,
        forall|i: int| 0 <= i < 32 ==> is_lower_hex_digit(#[trigger] r@[i]),
{
    format!("{:x}", md5::compute(data))
}

/// `path` without one leading `/`.
pub open spec fn without_leading_slash(path: Seq<char>) -> Seq<char> {
    if path.len() > 0 && path[0] == '/' {
        path.drop_first()
    } else {
        path
    }
}

/// The signed MP3 address for the given download-info parts.
pub open spec fn signed_mp3_url(host: Seq<char>, path: Seq<char>, s: Seq<char>, ts: Seq<char>) -> Seq<
    char,
> {
    mp3_url_with_digest(host, md5_lower_hex(vstd::utf8::encode_utf8(signing_text(path, s))), ts, path)
}

/// The first index at or after `from` where `pat` occurs in `s`.
pub fn find_chars(s: &Vec<char>, pat: &Vec<char>, from: usize) -> (r: Option<usize>)
    ensures
        match r {
            Some(i) => find_from(s@, pat@, from as int) == Some(i as int),
            None => find_from(s@, pat@, from as int) is None,
        },
{
    let n: usize = s.len();
    let m: usize = pat.len();
    if m > n {
        return None;
    }
    let mut i = from;
    while i <= n - m
        invariant
            n == s.len(),
            m == pat.len(),
            m <= n,
            from <= i,
            find_from(s@, pat@, from as int) == find_from(s@, pat@, i as int),
        decreases n - i,
    {
        let mut j: usize = 0;
        let mut same = true;
        while j < m
            invariant
                n == s.len(),
                m == pat.len(),
                i + m <= n,
                j <= m,
                same == forall|k: int| 0 <= k < j ==> s@[i + k] == pat@[k],
            decreases m - j,
        {
            if s[i + j] != pat[j] {
                same = false;
            }
            j = j + 1;
        }
        if same {
            assert(s@.subrange(i as int, i + m) =~= pat@);
            return Some(i);
        }
        assert(!occurs_at(s@, pat@, i as int)) by {
            if occurs_at(s@, pat@, i as int) {
                let k = choose|k: int| 0 <= k < m && s@[i + k] != pat@[k];
            }
        }
        i = i + 1;
    }
    None
}

/// The trimmed text between the first `<tag>` and the following `</tag>`.
fn extract_tag(xml: &Vec<char>, tag: &'static str) -> (r: Result<String, ApiError>)
    ensures
        match tag_text(xml@, tag@) {
            Some(t) => r matches Ok(s) && s@ == t,
            None => r matches Err(e) && e@ == ApiErrorView::MissingField(tag@),
        },
{
    let tag_chars = chars_of(tag);
    let mut open: Vec<char> = Vec::new();
    open.push('<');
    let mut k: usize = 0;
    while k < tag_chars.len()
        invariant
            k <= tag_chars.len(),
            open@ == seq!['<'] + tag_chars@.subrange(0, k as int),
        decreases tag_chars.len() - k,
    {
        open.push(tag_chars[k]);
        k = k + 1;
    }
    let mut close: Vec<char> = Vec::new();
    close.push('<');
    close.push('/');
    k = 0;
    while k < tag_chars.len()
        invariant
            k <= tag_chars.len(),
            close@ == seq!['<', '/'] + tag_chars@.subrange(0, k as int),
        decreases tag_chars.len() - k,
    {
        close.push(tag_chars[k]);
        k = k + 1;
    }
    open.push('>');
    close.push('>');
    assert(open@ =~= open_tag(tag@));
    assert(close@ =~= close_tag(tag@));
    let i = match find_chars(xml, &open, 0) {
        Some(i) => i,
        None => return Err(ApiError::MissingField(tag)),
    };
    proof {
        lemma_find_from_occurs(xml@, open@, 0, i as int);
    }
    let xml_len: usize = xml.len();
    let start: usize = i + open.len();
    let end = match find_chars(xml, &close, start) {
        Some(end) => end,
        None => return Err(ApiError::MissingField(tag)),
    };
    proof {
        lemma_find_from_occurs(xml@, close@, start as int, end as int);
    }
    let inner = string_of(xml, start, end);
    let inner_chars = chars_of(inner.as_str());
    let (a, b) = trim_bounds(&inner_chars);
    Ok(string_of(&inner_chars, a, b))
}

/// A match that `find_from` reports lies within `s`, at or after `i`.
proof fn lemma_find_from_occurs(s: Seq<char>, pat: Seq<char>, i: int, j: int)
    requires
        find_from(s, pat, i) == Some(j),
    ensures
        occurs_at(s, pat, j),
        i <= j,
    decreases s.len() + 1 - i,
{
    if i < 0 || i + pat.len() > s.len() {
    } else if occurs_at(s, pat, i) {
    } else {
        lemma_find_from_occurs(s, pat, i + 1, j);
    }
}

/// Reads `host`, `path`, `s` and `ts` out of a download-info document.
pub fn parse_download_xml(xml: &str) -> (r: Result<DownloadInfo, ApiError>)
    ensures
        match r {
            Ok(info) => download_info_of(xml@) == Ok::<DownloadInfoView, ApiErrorView>(
                info.deep_view(),
            ),
            Err(e) => download_info_of(xml@) == Err::<DownloadInfoView, ApiErrorView>(e@),
        },
{
    let v = chars_of(xml);
    let host = match extract_tag(&v, "host") {
        Ok(t) => t,
        Err(e) => return Err(e),
    };
    let path = match extract_tag(&v, "path") {
        Ok(t) => t,
        Err(e) => return Err(e),
    };
    let s = match extract_tag(&v, "s") {
        Ok(t) => t,
        Err(e) => return Err(e),
    };
    let ts = match extract_tag(&v, "ts") {
        Ok(t) => t,
        Err(e) => return Err(e),
    };
    Ok(DownloadInfo { host, path, s, ts })
}

/// The text that is signed: the salt, `path` without its leading `/`, and `s`.
pub open spec fn signing_text(path: Seq<char>, s: Seq<char>) -> Seq<char> {
    SIGN_SALT@ + without_leading_slash(path) + s
}

/// The address of the MP3 for a digest: `https://{host}/get-mp3/{digest}/{ts}{path}`.
pub open spec fn mp3_url_with_digest(host: Seq<char>, digest: Seq<char>, ts: Seq<char>, path: Seq<char>) -> Seq<
    char,
> {
    "https://"@ + host + "/get-mp3/"@ + digest + "/"@ + ts + path
}

/// The text that is signed for `path` and `s`.
pub fn signing_input(path: &str, s: &str) -> (r: String)
    ensures
        r@ == signing_text(path@, s@),
{
    let path_chars = chars_of(path);
    let mut signed = String::from_str(SIGN_SALT);
    if path_chars.len() > 0 && path_chars[0] == '/' {
        push_chars(&mut signed, &path_chars, 1, path_chars.len());
    } else {
        push_chars(&mut signed, &path_chars, 0, path_chars.len());
    }
    signed.append(s);
    signed
}

/// The address of the MP3 for an already computed digest.
pub fn signed_url_from_digest(host: &str, digest: &str, ts: &str, path: &str) -> (r: String)
    ensures
        r@ == mp3_url_with_digest(host@, digest@, ts@, path@),
{
    let mut url = String::from_str("https://");
    url.append(host);
    url.append("/get-mp3/");
    url.append(digest);
    url.append("/");
    url.append(ts);
    url.append(path);
    url
}

/// The signed MP3 address: `https://{host}/get-mp3/{md5}/{ts}{path}`, where
/// `md5` is the digest of the salt, `path` without its leading `/`, and `s`.
pub fn build_signed_mp3_url(host: &str, path: &str, s: &str, ts: &str) -> (r: String)
    ensures
        r@ == signed_mp3_url(host@, path@, s@, ts@),
{
    let signed = signing_input(path, s);
    let digest = md5_hex(signed.as_str().as_bytes());
    signed_url_from_digest(host, digest.as_str(), ts, path)
}

/// Whether `xml` holds an element `<tag>...</tag>` that opens at `i` and
/// closes at `e`, with no `<tag>` before it and no `</tag>` inside it.
pub open spec fn first_element_at(xml: Seq<char>, tag: Seq<char>, i: int, e: int) -> bool {
    let o = seq!['<'] + tag + seq!['>'];
    let c = seq!['<', '/'] + tag + seq!['>'];
    &&& 0 <= i
    &&& i + o.len() <= e
    &&& e + c.len() <= xml.len()
    &&& xml.subrange(i, i + o.len()) == o
    &&& xml.subrange(e, e + c.len()) == c
    &&& forall|j: int| 0 <= j < i ==> #[trigger] xml.subrange(j, j + o.len()) != o
    &&& forall|j: int| i + o.len() <= j < e ==> #[trigger] xml.subrange(j, j + c.len()) != c
}

proof fn lemma_find_first(s: Seq<char>, pat: Seq<char>, k: int, i: int)
    requires
        0 <= k <= i,
        occurs_at(s, pat, i),
        forall|j: int| k <= j < i ==> !occurs_at(s, pat, j),
    ensures
        find_from(s, pat, k) == Some(i),
    decreases i - k,
{
    if k < i {
        assert(!occurs_at(s, pat, k));
        lemma_find_first(s, pat, k + 1, i);
    }
}

/// The text of a tag is the trimmed content of the first complete `<tag>`
/// element, wherever it stands among the others.
pub proof fn tag_text_is_the_first_element(xml: Seq<char>, tag: Seq<char>, i: int, e: int)
    requires
        first_element_at(xml, tag, i, e),
    ensures
        tag_text(xml, tag) == Some(trim(xml.subrange(i + tag.len() + 2, e))),
{
    let o = seq!['<'] + tag + seq!['>'];
    let c = seq!['<', '/'] + tag + seq!['>'];
    assert(open_tag(tag) == o);
    assert(close_tag(tag) == c);
    assert forall|j: int| 0 <= j < i implies !occurs_at(xml, o, j) by {
        assert(xml.subrange(j, j + o.len()) != o);
    }
    lemma_find_first(xml, o, 0, i);
    assert forall|j: int| i + o.len() <= j < e implies !occurs_at(xml, c, j) by {
        assert(xml.subrange(j, j + c.len()) != c);
    }
    lemma_find_first(xml, c, i + o.len(), e);
}

/// The parts of a download-info document are the trimmed contents of its
/// `host`, `path`, `s` and `ts` elements, in whatever order they stand.
pub proof fn download_parts_are_the_elements(
    xml: Seq<char>,
    host_at: int,
    host_end: int,
    path_at: int,
    path_end: int,
    s_at: int,
    s_end: int,
    ts_at: int,
    ts_end: int,
)
    requires
        first_element_at(xml, "host"@, host_at, host_end),
        first_element_at(xml, "path"@, path_at, path_end),
        first_element_at(xml, "s"@, s_at, s_end),
        first_element_at(xml, "ts"@, ts_at, ts_end),
    ensures
        download_info_of(xml) == Ok::<DownloadInfoView, ApiErrorView>(
            DownloadInfoView {
                host: trim(xml.subrange(host_at + 6, host_end)),
                path: trim(xml.subrange(path_at + 6, path_end)),
                s: trim(xml.subrange(s_at + 3, s_end)),
                ts: trim(xml.subrange(ts_at + 4, ts_end)),
            },
        ),
{
    reveal_strlit("host");
    reveal_strlit("path");
    reveal_strlit("s");
    reveal_strlit("ts");
    tag_text_is_the_first_element(xml, "host"@, host_at, host_end);
    tag_text_is_the_first_element(xml, "path"@, path_at, path_end);
    tag_text_is_the_first_element(xml, "s"@, s_at, s_end);
    tag_text_is_the_first_element(xml, "ts"@, ts_at, ts_end);
}

} // verus!
