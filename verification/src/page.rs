//! A lighter paging capability used by the amendment family of responses:
//! only the neighbouring links, without exposing the item collection.

use vstd::prelude::*;
use crate::pagination::link_of;

verus! {

/// The pagination block carried by the amendment-family responses.
#[derive(Clone, Debug, PartialEq, Eq)]
pub struct Pagination {
    pub count: u32,
    pub prev: Option<String>,
    pub next: Option<String>,
}

/// Observes the neighbouring page links of a response.
pub trait PagedResponse {
    /// The URL of the previous page, if any.
    spec fn prev_link(&self) -> Option<Seq<char>>;

    /// The URL of the next page, if any.
    spec fn next_link(&self) -> Option<Seq<char>>;

    fn previous(&self) -> (r: Option<String>)
        ensures
            link_of(r) == self.prev_link(),
    ;

    fn next(&self) -> (r: Option<String>)
        ensures
            link_of(r) == self.next_link(),
    ;
}

} // verus!
