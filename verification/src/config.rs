//! The saved settings: the token and the volume.
use vstd::prelude::*;
use vstd::string::*;
use vstd::utf8::{decode_utf8, encode_utf8, encode_utf8_decode_utf8, is_char_boundary};

use crate::text::push_char;

verus! {

/// The volume a new configuration starts with, in percent.
pub const DEFAULT_VOLUME_PERCENT: u8 = 100;

/// The saved settings.
#[derive(Debug, Clone, PartialEq, Eq)]
pub struct AppConfig {
    pub token: Option<String>,
    pub volume_percent: u8,
}

impl Default for AppConfig {
    fn default() -> (r: Self)
        ensures
            r.token is None,
            r.volume_percent == DEFAULT_VOLUME_PERCENT,
    {
        AppConfig { token: None, volume_percent: default_volume_percent() }
    }
}

/// The volume a new configuration starts with, in percent.
pub fn default_volume_percent() -> (r: u8)
    ensures
        r == DEFAULT_VOLUME_PERCENT,
{
    DEFAULT_VOLUME_PERCENT
}

/// Whether `redact_token` can cut `token` where it does: tokens of up to
/// eight bytes are not cut; longer ones are cut four bytes from each end,
/// which must fall between characters.
pub open spec fn redactable(token: Seq<char>) -> bool {
    let b = encode_utf8(token);
    b.len() <= 8 || (is_char_boundary(b, 4) && is_char_boundary(b, b.len() - 4))
}

/// What `redact_token` shows of `token`: one `*` per byte where it has at
/// most eight bytes, else its first and last four bytes around `...`.
pub open spec fn redacted(token: Seq<char>) -> Seq<char> {
    let b = encode_utf8(token);
    if b.len() <= 8 {
        Seq::new(b.len(), |i: int| '*')
    } else {
        decode_utf8(b.subrange(0, 4)) + "..."@ + decode_utf8(b.subrange(b.len() - 4, b.len() as int))
    }
}

impl AppConfig {
    /// The token with all but its edges hidden.
    pub fn redact_token(token: &str) -> (r: String)
        requires
            redactable(token@),
        ensures
            r@ == redacted(token@),
    {
        let n: usize = token.as_bytes().len();
        if n <= 8 {
            let mut stars = String::new();
            let mut i: usize = 0;
            while i < n
                invariant
                    i <= n,
                    stars@ == Seq::new(i as nat, |j: int| '*'),
                decreases n - i,
            {
                push_char(&mut stars, '*');
                i = i + 1;
            }
            return stars;
        }
        let (head, _) = token.split_at(4);
        let (_, tail) = token.split_at(n - 4);
        proof {
            encode_utf8_decode_utf8(head@);
            encode_utf8_decode_utf8(tail@);
        }
        let mut r = String::from_str(head);
        r.append("...");
        r.append(tail);
        r
    }
}

/// Nothing of a token but its length in bytes and, where it is longer than
/// eight bytes, its first and last four bytes reaches its redacted form.
pub proof fn redaction_shows_only_length_and_edges(a: Seq<char>, b: Seq<char>)
    requires
        encode_utf8(a).len() == encode_utf8(b).len(),
        encode_utf8(a).len() <= 8 || (encode_utf8(a).subrange(0, 4) == encode_utf8(b).subrange(0, 4)
            && encode_utf8(a).subrange(encode_utf8(a).len() - 4, encode_utf8(a).len() as int)
            == encode_utf8(b).subrange(encode_utf8(b).len() - 4, encode_utf8(b).len() as int)),
    ensures
        redacted(a) == redacted(b),
{
}

} // verus!
