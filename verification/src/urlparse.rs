//! URL parsing, delegated to the `url` crate.
//!
//! The builders need two operations: parse a string as an absolute URL, and
//! parse one and then replace its query component. Both are deterministic
//! functions of their string arguments alone, so their results are given
//! names that the builders' contracts speak of.

use vstd::prelude::*;

verus! {

/// The serialization of `s` parsed as an absolute URL, if `s` parses:
/// what `url::Url::try_from(s)` followed by reading the URL back as a string
/// yields. `None` when `s` does not parse.
pub uninterp spec fn url_parse(s: Seq<char>) -> Option<Seq<char>>;

/// The serialization of `s` parsed as an absolute URL whose query component
/// was then set to `q`: what `url::Url::try_from(s)`, then
/// `Url::set_query(Some(q))`, then reading the URL back as a string yields.
/// Meaningful only when `url_parse(s)` is `Some`.
pub uninterp spec fn url_parse_with_query(s: Seq<char>, q: Seq<char>) -> Seq<char>;

/// The description of the error with which `s` fails to parse as an absolute
/// URL: what the `Display` of `url::Url::try_from(s)`'s `url::ParseError`
/// yields, a fixed message per error variant. Meaningful only when
/// `url_parse(s)` is `None`.
pub uninterp spec fn url_parse_error(s: Seq<char>) -> Seq<char>;

/// Relies on `url::Url::try_from` (WHATWG URL parsing, a deterministic
/// function of the input string) and on `From<Url> for String`, which returns
/// the parsed URL's serialization. On failure the error's description is
/// returned.
#[verifier::external_body]
pub(crate) fn try_parse_url(s: &str) -> (r: Result<String, String>)
    ensures
        r is Ok <==> url_parse(s@) is Some,
        r is Ok ==> url_parse(s@) == Some(r->Ok_0@),
        r is Err ==> r->Err_0@ == url_parse_error(s@),
{
    match url::Url::try_from(s) {
        Ok(u) => Ok(String::from(u)),
        Err(e) => Err(e.to_string()),
    }
}

/// Relies on `url::Url::try_from` and `url::Url::set_query`: parses `s`,
/// sets the parsed URL's query component to `q` (`set_query` itself never
/// fails, so success is decided by the parse alone), and returns the
/// resulting serialization. On failure the parse error's description is
/// returned.
///
/// The precondition excludes inputs on which `set_query` would panic: the
/// `url` crate keeps its component offsets in `u32` and `set_query` rebuilds
/// the serialization and `unwrap`s that conversion, so the rebuilt
/// serialization must stay under `u32::MAX` bytes. One character of `s` or
/// `q` contributes at most twelve bytes to it (four UTF-8 bytes, each
/// possibly percent-encoded as `%XX`), and the parser fails cleanly, rather
/// than panicking, where its own output would pass the cap.
#[verifier::external_body]
pub(crate) fn try_parse_url_with_query(s: &str, q: &str) -> (r: Result<String, String>)
    requires
        12 * s@.len() + 12 * q@.len() + 1 < 0x1_0000_0000,
    ensures
        r is Ok <==> url_parse(s@) is Some,
        r is Ok ==> r->Ok_0@ == url_parse_with_query(s@, q@),
        r is Err ==> r->Err_0@ == url_parse_error(s@),
{
    match url::Url::try_from(s) {
        Ok(mut u) => {
            u.set_query(Some(q));
            Ok(String::from(u))
        }
        Err(e) => Err(e.to_string()),
    }
}

} // verus!
