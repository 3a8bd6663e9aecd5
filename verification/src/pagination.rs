//! The pagination envelope of list responses, and the capability trait the
//! generic page fetcher walks. The `prev`/`next` links are opaque
//! server-issued URLs, carried as text and never constructed locally.

use vstd::prelude::*;

verus! {

/// The `pagination` block of a list response: total count and optional
/// absolute URLs of the neighbouring pages.
#[derive(Clone, Debug, PartialEq, Eq)]
pub struct Pagination {
    pub count: u32,
    pub prev: Option<String>,
    pub next: Option<String>,
}

/// The text of an optional link.
pub open spec fn link_of(o: Option<String>) -> Option<Seq<char>> {
    match o {
        Some(s) => Some(s@),
        None => None,
    }
}

/// A list response: an ordered item collection plus a pagination
/// envelope, observed but never mutated.
pub trait PagedResponse<T> {
    /// The items, as the server ordered them.
    spec fn spec_items(&self) -> Seq<T>;

    /// The pagination envelope.
    spec fn spec_pagination(&self) -> Pagination;

    fn get_items(&self) -> (r: &Vec<T>)
        ensures
            r@ == self.spec_items(),
    ;

    fn get_pagination(&self) -> (r: &Pagination)
        ensures
            *r == self.spec_pagination(),
    ;

    /// The URL of the previous page, absent on the first page.
    fn previous(&self) -> (r: Option<String>)
        ensures
            link_of(r) == link_of(self.spec_pagination().prev),
    {
        match &self.get_pagination().prev {
            Some(s) => Some(s.clone()),
            None => None,
        }
    }

    /// The URL of the next page, absent on the last page.
    fn next(&self) -> (r: Option<String>)
        ensures
            link_of(r) == link_of(self.spec_pagination().next),
    {
        match &self.get_pagination().next {
            Some(s) => Some(s.clone()),
            None => None,
        }
    }
}

} // verus!
