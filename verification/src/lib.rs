//! A typed client core for the congress.gov REST API: query-parameter
//! encoding and decoding, wire-format enumerations, endpoint path building,
//! pagination, and response classification, all with verified contracts.
//! The HTTP transport itself lives outside this crate.

pub mod amendment;
pub mod amendment_type;
pub mod amendments;
pub mod bill;
pub mod bill_type;
pub mod bills;
pub mod chamber;
pub mod datetime;
pub mod decimal;
pub mod error;
pub mod latest_action;
pub mod page;
pub mod pagination;
pub mod parameters;
pub mod prelude;
pub mod query;
pub mod request;
pub mod response;
pub mod sort;
pub mod text;
pub mod urls;

use vstd::prelude::*;
use crate::bill::BillHandler;
use crate::bill_type::BillType;
use crate::bills::BillsHandler;
use crate::error::Error;
use crate::pagination::{link_of, PagedResponse};
use crate::parameters::{spec_encode, Parameters};
use crate::query::spec_escape;
use crate::request::{page_request, page_request_outcome, PageRequest};
use crate::urls::{check_url, url_is_valid};

verus! {

/// The query entries every request carries, before any parameters:
/// the API key, escaped, and the fixed format flag.
pub open spec fn spec_fixed_query(api_key: Seq<char>) -> Seq<char> {
    seq!['a', 'p', 'i', '_', 'k', 'e', 'y', '='] + spec_escape(api_key) + seq![
        '&',
        'f',
        'o',
        'r',
        'm',
        'a',
        't',
        '=',
        'j',
        's',
        'o',
        'n',
    ]
}

/// The whole query string of a request: the fixed entries first, then the
/// parameter fields. The parameters cannot override the fixed entries:
/// they carry no field of those names.
pub open spec fn spec_full_query(api_key: Seq<char>, params: Option<Parameters>) -> Seq<char> {
    match params {
        Some(p) => if spec_encode(p).len() == 0 {
            spec_fixed_query(api_key)
        } else {
            spec_fixed_query(api_key) + seq!['&'] + spec_encode(p)
        },
        None => spec_fixed_query(api_key),
    }
}

/// The configuration of a client: where to send requests, as what, and
/// with which key. The transport that performs them lives outside this
/// crate and consumes these values.
#[derive(Clone, Debug, PartialEq, Eq)]
pub struct Client {
    pub base_url: String,
    pub api_key: String,
    pub user_agent: String,
}

impl Client {
    /// The handler of the bill list.
    pub fn bills(&self) -> (r: BillsHandler)
        ensures
            r.congress is None,
            r.bill_type is None,
            r.parameters == Parameters::spec_default(),
    {
        BillsHandler::new()
    }

    /// The handler of one bill.
    pub fn bill(&self, congress: u32, bill_type: BillType, bill_number: u32) -> (r: BillHandler)
        ensures
            r == (BillHandler { congress, bill_type, bill_number }),
    {
        BillHandler::new(congress, bill_type, bill_number)
    }

    /// Derive the request for the page before this response, if any.
    /// The response is only read; re-deriving is idempotent.
    pub fn previous<T, R>(&self, response: &T) -> (r: Result<Option<PageRequest>, Error>) where
        T: PagedResponse<R>,

        ensures
            page_request_outcome(link_of(response.spec_pagination().prev), r),
            r matches Ok(Some(req)) ==> req.parameters.wf(),
    {
        page_request(&response.previous())
    }

    /// Derive the request for the page after this response, if any.
    /// The response is only read; re-deriving is idempotent.
    pub fn next<T, R>(&self, response: &T) -> (r: Result<Option<PageRequest>, Error>) where
        T: PagedResponse<R>,

        ensures
            page_request_outcome(link_of(response.spec_pagination().next), r),
            r matches Ok(Some(req)) ==> req.parameters.wf(),
    {
        page_request(&response.next())
    }

    /// The absolute URL of a request: the path joined onto the configured
    /// base URL; a join that does not resolve is `InvalidUrl`, with its
    /// fixed message.
    pub fn request_url(&self, path: &str) -> (r: Result<String, Error>)
        ensures
            crate::urls::url_join_ok(self.base_url@, path@) ==> (r matches Ok(u) && u@
                == crate::urls::url_join_of(self.base_url@, path@)),
            !crate::urls::url_join_ok(self.base_url@, path@) ==> (r matches Err(e) && (e
                matches Error::InvalidUrl { message } && message@
                == "the path does not resolve against the base URL"@)),
    {
        match crate::urls::url_join(self.base_url.as_str(), path) {
            Some(u) => Ok(u),
            None => Err(
                Error::InvalidUrl {
                    message: String::from_str("the path does not resolve against the base URL"),
                },
            ),
        }
    }

    /// The full query string of a request: fixed entries, then the
    /// parameters, which cannot override them.
    pub fn query_string(&self, params: Option<&Parameters>) -> (r: String)
        requires
            params matches Some(p) ==> p.wf(),
        ensures
            r@ == spec_full_query(self.api_key@, match params {
                Some(p) => Some(*p),
                None => None,
            }),
    {
        proof {
            reveal_strlit("api_key=");
            assert("api_key="@ =~= seq!['a', 'p', 'i', '_', 'k', 'e', 'y', '=']);
            reveal_strlit("&format=json");
            assert("&format=json"@ =~= seq![
                '&',
                'f',
                'o',
                'r',
                'm',
                'a',
                't',
                '=',
                'j',
                's',
                'o',
                'n',
            ]);
        }
        let mut q = String::from_str("api_key=");
        q.append(crate::query::escape_component(self.api_key.as_str()).as_str());
        q.append("&format=json");
        proof {
            assert(q@ =~= spec_fixed_query(self.api_key@));
        }
        if let Some(p) = params {
            let encoded = p.to_query_string();
            if encoded.as_str().unicode_len() > 0 {
                q.push('&');
                q.append(encoded.as_str());
                proof {
                    assert(q@ =~= spec_fixed_query(self.api_key@) + seq!['&'] + spec_encode(*p));
                }
            }
        }
        q
    }
}

/// Builds a client configuration: an API key, an optional base-URL
/// override, and an optional user-agent override.
#[derive(Clone, Debug, PartialEq, Eq)]
pub struct ClientBuilder {
    pub base_url: String,
    pub user_agent: String,
    pub api_key: String,
}

/// The default base URL of the upstream API.
pub open spec fn spec_default_base_url() -> Seq<char> {
    "https://api.congress.gov/"@
}

/// The default user agent: this library and its version.
pub open spec fn spec_default_user_agent() -> Seq<char> {
    "congress/0.1.0"@
}

impl ClientBuilder {
    pub fn new(api_key: String) -> (r: ClientBuilder)
        ensures
            r.api_key@ == api_key@,
            r.base_url@ == spec_default_base_url(),
            r.user_agent@ == spec_default_user_agent(),
    {
        ClientBuilder {
            base_url: String::from_str("https://api.congress.gov/"),
            user_agent: String::from_str("congress/0.1.0"),
            api_key,
        }
    }

    /// Override the base URL; text that does not parse as an absolute URL
    /// is rejected.
    pub fn base_url(self, base_url: &str) -> (r: Result<ClientBuilder, Error>)
        ensures
            url_is_valid(base_url@) ==> (r matches Ok(b) && b.base_url@ == base_url@ && b.api_key@
                == self.api_key@ && b.user_agent@ == self.user_agent@),
            !url_is_valid(base_url@) ==> (r matches Err(e) && e is InvalidBaseUrlError),
    {
        if check_url(base_url) {
            Ok(
                ClientBuilder {
                    base_url: base_url.to_owned(),
                    user_agent: self.user_agent,
                    api_key: self.api_key,
                },
            )
        } else {
            Err(
                Error::InvalidBaseUrlError {
                    message: String::from_str("the base URL does not parse"),
                },
            )
        }
    }

    /// Override the user agent.
    pub fn user_agent(self, user_agent: String) -> (r: ClientBuilder)
        ensures
            r.user_agent@ == user_agent@,
            r.api_key@ == self.api_key@,
            r.base_url@ == self.base_url@,
    {
        ClientBuilder { base_url: self.base_url, user_agent, api_key: self.api_key }
    }

    /// Build the client configuration; an empty API key is rejected, since
    /// no request can succeed without one.
    pub fn build(&self) -> (r: Result<Client, Error>)
        ensures
            self.api_key@.len() == 0 ==> (r matches Err(e) && e is ClientBuildError),
            self.api_key@.len() > 0 ==> (r matches Ok(c) && c.base_url@ == self.base_url@
                && c.api_key@ == self.api_key@ && c.user_agent@ == self.user_agent@),
    {
        if self.api_key.as_str().unicode_len() == 0 {
            Err(Error::ClientBuildError { message: String::from_str("the API key is empty") })
        } else {
            Ok(
                Client {
                    base_url: self.base_url.clone(),
                    api_key: self.api_key.clone(),
                    user_agent: self.user_agent.clone(),
                },
            )
        }
    }
}

} // verus!
