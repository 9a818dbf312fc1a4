//! Trusted boundary to the `url` crate.
//!
//! URLs travel through the library as plain strings; the crate is consulted
//! only to decide whether a string is a syntactically valid URL and to
//! replace the path of a base URL. Both results are functions of the input
//! strings alone, so they are given names rather than written out.

use vstd::prelude::*;

verus! {

/// What `url::Url::parse` yields on a given string: the canonical
/// serialization when the string parses as an absolute URL, absent otherwise.
pub uninterp spec fn url_parse(s: Seq<char>) -> Option<Seq<char>>;

/// Relies on url::Url::parse: whether a string parses, and the canonical
/// serialization of the result, depend on the string alone; an over-long
/// input is an error, never a panic.
#[verifier::external_body]
pub(crate) fn parse_url(s: &str) -> (r: Option<String>)
    ensures
        r.deep_view() == url_parse(s@),
{
    match url::Url::parse(s) {
        Ok(u) => Some(String::from(u)),
        Err(_) => None,
    }
}

/// What parsing `base` and replacing its whole path with `p` yields, as the
/// canonical serialization: absent when `base` does not parse as a URL.
pub uninterp spec fn url_with_path(base: Seq<char>, p: Seq<char>) -> Option<Seq<char>>;

/// The combined input length under which a path rewrite is known not to
/// abort: the url crate caps a URL's serialization at 4 GiB and aborts past
/// it when a path is replaced, and an encoded path grows to at most three
/// bytes per character, so inputs within this bound stay far below the cap.
pub open spec fn spec_url_len_limit() -> int {
    0x1000_0000
}

pub(crate) fn url_len_limit() -> (r: usize)
    ensures
        r == spec_url_len_limit(),
{
    0x1000_0000
}

/// Relies on url::Url::set_path after url::Url::parse of the base: the whole
/// path is replaced (a leading slash supplied, segments percent-encoded),
/// a function of the two strings alone. The length bound keeps the rewritten
/// serialization below the crate's 4 GiB cap, past which it would abort.
#[verifier::external_body]
pub(crate) fn set_url_path(base: &str, p: &str) -> (r: Option<String>)
    requires
        base@.len() + p@.len() <= spec_url_len_limit(),
    ensures
        r.deep_view() == url_with_path(base@, p@),
{
    match url::Url::parse(base) {
        Ok(mut u) => {
            u.set_path(p);
            Some(String::from(u))
        },
        Err(_) => None,
    }
}

} // verus!
