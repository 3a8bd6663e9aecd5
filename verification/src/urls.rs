//! The crate's only view of URL syntax, through the `url` crate. A
//! server-issued link is opaque text; these wrappers expose whether it
//! parses, and its path and query parts, as functions of that text.

use vstd::prelude::*;
use crate::pagination::link_of;

verus! {

/// Whether `url::Url::parse` accepts the text as an absolute URL.
pub uninterp spec fn url_is_valid(s: Seq<char>) -> bool;

/// The path part of a valid URL's text.
pub uninterp spec fn url_path_of(s: Seq<char>) -> Seq<char>;

/// The query part of a valid URL's text, absent when the URL has none.
pub uninterp spec fn url_query_of(s: Seq<char>) -> Option<Seq<char>>;

/// Relies on url::Url::parse and url::Url::path: parsing accepts or
/// rejects the text on its own, and the parsed URL's path is a function
/// of it.
#[verifier::external_body]
pub(crate) fn url_path_part(s: &str) -> (r: Option<String>)
    ensures
        (r is Some) == url_is_valid(s@),
        r matches Some(p) ==> p@ == url_path_of(s@),
{
    match url::Url::parse(s) {
        Ok(u) => Some(u.path().to_owned()),
        Err(_) => None,
    }
}

/// Relies on url::Url::parse and url::Url::query: the parsed URL's query
/// string, when it has one, is a function of the text.
#[verifier::external_body]
pub(crate) fn url_query_part(s: &str) -> (r: Option<Option<String>>)
    ensures
        (r is Some) == url_is_valid(s@),
        r matches Some(q) ==> link_of(q) == url_query_of(s@),
{
    match url::Url::parse(s) {
        Ok(u) => Some(u.query().map(|q| q.to_owned())),
        Err(_) => None,
    }
}

/// Whether text is a valid absolute URL.
pub fn check_url(s: &str) -> (r: bool)
    ensures
        r == url_is_valid(s@),
{
    url_path_part(s).is_some()
}

/// The text of an endpoint path joined onto a base URL, where the join
/// resolves.
pub uninterp spec fn url_join_of(base: Seq<char>, path: Seq<char>) -> Seq<char>;

/// Whether the join resolves: the base parses and takes the path.
pub uninterp spec fn url_join_ok(base: Seq<char>, path: Seq<char>) -> bool;

/// Relies on url::Url::parse and url::Url::join: resolving a path against
/// a base URL depends on the two texts alone.
#[verifier::external_body]
pub(crate) fn url_join(base: &str, path: &str) -> (r: Option<String>)
    ensures
        (r is Some) == url_join_ok(base@, path@),
        r matches Some(u) ==> u@ == url_join_of(base@, path@),
{
    match url::Url::parse(base) {
        Ok(b) => match b.join(path) {
            Ok(u) => Some(u.as_str().to_owned()),
            Err(_) => None,
        },
        Err(_) => None,
    }
}

} // verus!
