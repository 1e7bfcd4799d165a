//! The calls this library makes into other crates and into std where vstd
//! gives no specification. Each contract below states only what the called
//! function's documentation or source shows.
use vstd::prelude::*;

verus! {

/// What `String::from_utf8_lossy` makes of a byte sequence.
pub uninterp spec fn lossy_text(b: Seq<u8>) -> Seq<char>;

/// The text of capture group 1 in the leftmost match of the regular
/// expression `pattern` in `text`; `None` when `pattern` is not a valid
/// expression, nothing matches, or the group takes no part in the match.
pub uninterp spec fn first_capture(pattern: Seq<char>, text: Seq<char>) -> Option<Seq<char>>;

/// The serialization of the URL reference `input` resolved against the URL
/// `base`; `None` when `base` is not a URL or the resolution fails.
pub uninterp spec fn joined_url(base: Seq<char>, input: Seq<char>) -> Option<Seq<char>>;

/// The Unicode `White_Space` property, which is this fixed list of code points.
pub open spec fn unicode_space(c: char) -> bool {
    let u = c as u32;
    ||| 0x09 <= u <= 0x0d
    ||| u == 0x20
    ||| u == 0x85
    ||| u == 0xa0
    ||| u == 0x1680
    ||| 0x2000 <= u <= 0x200a
    ||| u == 0x2028
    ||| u == 0x2029
    ||| u == 0x202f
    ||| u == 0x205f
    ||| u == 0x3000
}

/// `t` occurs in `text`.
pub open spec fn occurs_in(t: Seq<char>, text: Seq<char>) -> bool {
    exists|i: int| 0 <= i && i + t.len() <= text.len() && #[trigger] text.subrange(i, i + t.len()) == t
}

/// Relies on `url::Url::parse` and `url::Url::join`: `base` parsed as a URL,
/// `input` resolved against it, and the result's serialization (`From<Url>
/// for String`).
#[verifier::external_body]
pub(crate) fn join_url(base: &str, input: &str) -> (r: Option<String>)
    ensures
        r is None <==> joined_url(base@, input@) is None,
        r matches Some(u) ==> joined_url(base@, input@) == Some(u@),
{
    match url::Url::parse(base) {
        Ok(b) => b.join(input).ok().map(String::from),
        Err(_) => None,
    }
}

/// Relies on `regex::Regex::new`, `Regex::captures` and `Captures::get`: the
/// text of capture group 1 in the leftmost match of `pattern` in `text`.
/// `Match::as_str` slices the haystack, so the result occurs in `text`.
#[verifier::external_body]
pub(crate) fn first_group(pattern: &str, text: &str) -> (r: Option<String>)
    ensures
        r is None <==> first_capture(pattern@, text@) is None,
        r matches Some(g) ==> first_capture(pattern@, text@) == Some(g@) && occurs_in(g@, text@),
{
    match regex::Regex::new(pattern) {
        Ok(re) => re.captures(text).and_then(|c| c.get(1)).map(|m| m.as_str().to_string()),
        Err(_) => None,
    }
}

/// Relies on `String::from_utf8_lossy`: decodes bytes as UTF-8, replacing
/// invalid sequences; it never fails.
#[verifier::external_body]
pub(crate) fn decode_lossy(b: &[u8]) -> (r: String)
    ensures
        r@ == lossy_text(b@),
{
    String::from_utf8_lossy(b).into_owned()
}

/// Relies on `char::is_whitespace`: whether `c` has the Unicode `White_Space`
/// property.
#[verifier::external_body]
pub(crate) fn is_space(c: char) -> (r: bool)
    ensures
        r == unicode_space(c),
{
    c.is_whitespace()
}

} // verus!
