//! Deriving a follow-up request from a server-issued pagination link: the
//! link's path is kept, its query string is decoded back into the
//! parameter model, and the pair is handed to the request executor. A
//! link the server issued is expected to carry a query string; one
//! without any is reported as a typed error, never followed blindly.

use vstd::prelude::*;
use crate::error::{DecodeError, Error};
use crate::pagination::link_of;
use crate::parameters::{spec_decode, Parameters};
use crate::urls::{url_is_valid, url_path_of, url_query_of, url_path_part, url_query_part};

verus! {

/// A request the executor can perform: an endpoint path and the
/// parameters to attach.
#[derive(Clone, Debug, PartialEq, Eq)]
pub struct PageRequest {
    pub path: String,
    pub parameters: Parameters,
}

/// The parameters a link carries: its decoded query string. A link
/// without any query string violates the expectation that server-issued
/// pagination links address the same collection with adjusted options,
/// and is a decode failure of its own kind.
pub open spec fn spec_link_parameters(u: Seq<char>) -> Result<Parameters, DecodeError> {
    match url_query_of(u) {
        Some(q) => spec_decode(q),
        None => Err(DecodeError::MissingQuery),
    }
}

/// Exactly what deriving a request from an optional link yields: no link
/// means no further page; a link that does not parse is `InvalidUrl`,
/// with its fixed message; a query that is absent or does not decode is
/// a `Parameter` error; otherwise the link's path with its decoded
/// parameters.
pub open spec fn page_request_outcome(
    link: Option<Seq<char>>,
    r: Result<Option<PageRequest>, Error>,
) -> bool {
    match link {
        None => r == Ok::<Option<PageRequest>, Error>(None),
        Some(u) => {
            if !url_is_valid(u) {
                r matches Err(e) && (e matches Error::InvalidUrl { message } && message@
                    == "the pagination link does not parse"@)
            } else {
                match spec_link_parameters(u) {
                    Err(e) => r == Err::<Option<PageRequest>, Error>(
                        Error::Parameter { source: e },
                    ),
                    Ok(p) => r matches Ok(Some(req)) && req.path@ == url_path_of(u)
                        && req.parameters == p,
                }
            }
        },
    }
}

/// Derive the follow-up request of a pagination link. Absence of the link
/// is the normal end of the walk, not an error.
pub fn page_request(link: &Option<String>) -> (r: Result<Option<PageRequest>, Error>)
    ensures
        page_request_outcome(link_of(*link), r),
        r matches Ok(Some(req)) ==> req.parameters.wf(),
{
    match link {
        None => Ok(None),
        Some(u) => {
            let path = match url_path_part(u.as_str()) {
                Some(p) => p,
                None => {
                    return Err(
                        Error::InvalidUrl {
                            message: String::from_str("the pagination link does not parse"),
                        },
                    );
                },
            };
            let query = match url_query_part(u.as_str()) {
                Some(q) => q,
                None => {
                    // unreachable: the same text just parsed above
                    proof {
                        assert(false);
                    }
                    return Err(
                        Error::InvalidUrl {
                            message: String::from_str("the pagination link does not parse"),
                        },
                    );
                },
            };
            let parameters = match query {
                None => {
                    return Err(Error::Parameter { source: DecodeError::MissingQuery });
                },
                Some(qs) => match Parameters::from_str(qs.as_str()) {
                    Ok(p) => p,
                    Err(e) => {
                        return Err(Error::Parameter { source: e });
                    },
                },
            };
            Ok(Some(PageRequest { path, parameters }))
        },
    }
}

/// A walk ends exactly where the server stops issuing links: with no
/// link in hand, the only outcome the contract admits is that there is
/// no further page. In particular, walking backward from a first page,
/// whose envelope carries no previous link, stops at once.
pub proof fn lemma_walk_ends_without_link(r: Result<Option<PageRequest>, Error>)
    requires
        page_request_outcome(None, r),
    ensures
        r == Ok::<Option<PageRequest>, Error>(None),
{
}

/// Re-deriving a request from the same link is idempotent: any two
/// outcomes the contract of `page_request` admits agree — on the request
/// text and parameters when the walk goes on, on the error value when the
/// query is missing or malformed, and on the error class and message when
/// the link does not parse — and the link itself is never changed.
pub proof fn lemma_page_request_deterministic(
    link: Option<Seq<char>>,
    r1: Result<Option<PageRequest>, Error>,
    r2: Result<Option<PageRequest>, Error>,
)
    requires
        page_request_outcome(link, r1),
        page_request_outcome(link, r2),
    ensures
        (r1 is Ok) == (r2 is Ok),
        r1 matches Ok(Some(q1)) ==> (r2 matches Ok(Some(q2)) ==> q1.path@ == q2.path@
            && q1.parameters == q2.parameters),
        r1 matches Ok(o1) ==> (o1 is None ==> (r2 matches Ok(o2) && o2 is None)),
        r1 matches Err(Error::Parameter { source: s1 }) ==> r2 == Err::<
            Option<PageRequest>,
            Error,
        >(Error::Parameter { source: s1 }),
        r1 matches Err(Error::InvalidUrl { message: m1 }) ==> (r2 matches Err(
            Error::InvalidUrl { message: m2 },
        ) && m1@ == m2@),
{
}

} // verus!
