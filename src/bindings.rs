//! Calls into outside crates, each with the contract that the library relies on.
use vstd::prelude::*;

verus! {

/// The views of an optional string.
pub open spec fn opt_view(o: Option<String>) -> Option<Seq<char>> {
    match o {
        Some(s) => Some(s@),
        None => None,
    }
}

/// Host and path segments of a parsed URL.
pub struct UrlParts {
    pub host: Option<String>,
    pub segments: Option<Vec<String>>,
}

pub open spec fn segments_view(o: Option<Vec<String>>) -> Option<Seq<Seq<char>>> {
    match o {
        Some(v) => Some(crate::text::views(v@)),
        None => None,
    }
}

/// The host and the path segments of `s` read as a URL, or `None` when `s`
/// is not a URL.
pub uninterp spec fn parsed_url_of(s: Seq<char>) -> Option<(Option<Seq<char>>, Option<Seq<Seq<char>>>)>;

/// Relies on `url::Url::parse`, read through `Url::host_str` and
/// `Url::path_segments`. The segments come from splitting the path after its
/// leading `/` on `/`, so a present list holds at least one segment.
#[verifier::external_body]
pub(crate) fn parse_url(s: &str) -> (r: Option<UrlParts>)
    ensures
        match r {
            Some(p) => parsed_url_of(s@) == Some((opt_view(p.host), segments_view(p.segments))),
            None => parsed_url_of(s@) is None,
        },
        r is Some && r->0.segments is Some ==> r->0.segments->0@.len() >= 1,
{
    let u = url::Url::parse(s).ok()?;
    let host = u.host_str().map(str::to_string);
    let segments = match u.path_segments() {
        Some(p) => Some(p.map(str::to_string).collect()),
        None => None,
    };
    Some(UrlParts { host, segments })
}

/// `input` resolved against `base` read as a URL, serialized; `None` when
/// either does not parse.
pub uninterp spec fn joined_url_of(base: Seq<char>, input: Seq<char>) -> Option<Seq<char>>;

/// Relies on `url::Url::join` on `base` parsed by `url::Url::parse`.
#[verifier::external_body]
pub(crate) fn join_url(base: &str, input: &str) -> (r: Option<String>)
    ensures
        opt_view(r) == joined_url_of(base@, input@),
{
    let base = url::Url::parse(base).ok()?;
    let joined = base.join(input).ok()?;
    Some(joined.to_string())
}

/// The text of capture group `group` of the leftmost match of `pattern` in
/// `text`; `None` when the pattern does not compile, nothing matches, or the
/// group took no part in the match.
pub uninterp spec fn capture_of(pattern: Seq<char>, text: Seq<char>, group: nat) -> Option<Seq<char>>;

/// Relies on `regex::Regex::new`, `Regex::captures` and `Captures::get`.
#[verifier::external_body]
pub(crate) fn capture(pattern: &str, text: &str, group: usize) -> (r: Option<String>)
    ensures
        opt_view(r) == capture_of(pattern@, text@, group as nat),
{
    let re = regex::Regex::new(pattern).ok()?;
    let caps = re.captures(text)?;
    let found = caps.get(group)?;
    Some(found.as_str().to_string())
}

/// Whether `c` is alphabetic or numeric in Unicode.
pub uninterp spec fn alphanumeric(c: char) -> bool;

/// Relies on `char::is_alphanumeric` (std): Unicode `Alphabetic` or `Numeric`.
#[verifier::external_body]
pub(crate) fn is_alphanumeric(c: char) -> (r: bool)
    ensures
        r == alphanumeric(c),
{
    c.is_alphanumeric()
}

/// The Unicode upper-case form of `s`.
pub uninterp spec fn uppercase_of(s: Seq<char>) -> Seq<char>;

/// Whether every character of `s` is an ASCII capital letter.
pub open spec fn is_ascii_capitals(s: Seq<char>) -> bool {
    forall|k: int| 0 <= k < s.len() ==> 'A' <= #[trigger] s[k] && s[k] <= 'Z'
}

/// Relies on `str::to_uppercase` (std): the result depends on the characters
/// of `s` alone, and, as `char::to_uppercase` documents, a character with no
/// upper-case mapping (an ASCII capital letter) is kept as it is.
#[verifier::external_body]
pub(crate) fn to_uppercase(s: &str) -> (r: String)
    ensures
        r@ == uppercase_of(s@),
        is_ascii_capitals(s@) ==> r@ == s@,
{
    s.to_uppercase()
}

} // verus!
