//! The amendment list endpoint: its entity, its paged response, and its
//! handler, which narrows the listing by congress and amendment category.

use vstd::prelude::*;
use crate::amendment_type::{spec_amendment_type_code, AmendmentType};
use crate::datetime::Date;
use crate::decimal::{spec_u32_digits, u32_to_string};
use crate::page::{PagedResponse, Pagination};
use crate::pagination::link_of;
use crate::parameters::Parameters;
use crate::request::PageRequest;

verus! {

#[derive(Clone, Debug, PartialEq, Eq)]
pub struct LatestAction {
    pub action_date: Date,
    pub text: String,
}

/// One amendment of a list response.
#[derive(Clone, Debug, PartialEq, Eq)]
pub struct Amendment {
    pub congress: u32,
    pub latest_action: LatestAction,
    pub number: String,
    pub purpose: Option<String>,
    pub amendment_type: AmendmentType,
    pub url: String,
}

#[derive(Clone, Debug, PartialEq, Eq)]
pub struct AmendmentsResponse {
    pub amendments: Vec<Amendment>,
    pub pagination: Pagination,
}

impl PagedResponse for AmendmentsResponse {
    open spec fn prev_link(&self) -> Option<Seq<char>> {
        link_of(self.pagination.prev)
    }

    open spec fn next_link(&self) -> Option<Seq<char>> {
        link_of(self.pagination.next)
    }

    fn previous(&self) -> (r: Option<String>) {
        match &self.pagination.prev {
            Some(s) => Some(s.clone()),
            None => None,
        }
    }

    fn next(&self) -> (r: Option<String>) {
        match &self.pagination.next {
            Some(s) => Some(s.clone()),
            None => None,
        }
    }
}

/// The path of the amendment list, narrowed by the optional congress
/// number and amendment category.
pub open spec fn spec_amendments_path(
    congress: Option<u32>,
    amendment_type: Option<AmendmentType>,
) -> Seq<char> {
    seq!['/', 'v', '3', '/', 'a', 'm', 'e', 'n', 'd', 'm', 'e', 'n', 't'] + (match congress {
        Some(c) => seq!['/'] + spec_u32_digits(c as nat),
        None => Seq::empty(),
    }) + (match amendment_type {
        Some(t) => seq!['/'] + spec_amendment_type_code(t),
        None => Seq::empty(),
    })
}

/// Builds the request for the amendment list.
#[derive(Clone, Copy, Debug, PartialEq, Eq)]
pub struct AmendmentsHandler {
    pub congress: Option<u32>,
    pub amendment_type: Option<AmendmentType>,
    pub params: Parameters,
}

impl AmendmentsHandler {
    pub fn new() -> (r: AmendmentsHandler)
        ensures
            r.congress is None,
            r.amendment_type is None,
            r.params == Parameters::spec_default(),
    {
        AmendmentsHandler { congress: None, amendment_type: None, params: Parameters::default() }
    }

    /// Restrict the listing to one congress.
    pub fn congress(self, congress: u32) -> (r: Self)
        ensures
            r == (AmendmentsHandler { congress: Some(congress), ..self }),
    {
        AmendmentsHandler { congress: Some(congress), ..self }
    }

    /// Restrict the listing to one amendment category.
    pub fn amendment_type(self, amendment_type: AmendmentType) -> (r: Self)
        ensures
            r == (AmendmentsHandler { amendment_type: Some(amendment_type), ..self }),
    {
        AmendmentsHandler { amendment_type: Some(amendment_type), ..self }
    }

    /// The request this handler has accumulated.
    pub fn request(&self) -> (r: PageRequest)
        ensures
            r.path@ == spec_amendments_path(self.congress, self.amendment_type),
            r.parameters == self.params,
    {
        proof {
            reveal_strlit("/v3/amendment");
            assert("/v3/amendment"@ =~= seq![
                '/',
                'v',
                '3',
                '/',
                'a',
                'm',
                'e',
                'n',
                'd',
                'm',
                'e',
                'n',
                't',
            ]);
        }
        let mut path = String::from_str("/v3/amendment");
        if let Some(c) = self.congress {
            path.push('/');
            path.append(u32_to_string(c).as_str());
        }
        if let Some(t) = &self.amendment_type {
            path.push('/');
            path.append(t.as_str());
        }
        proof {
            assert(path@ =~= spec_amendments_path(self.congress, self.amendment_type));
        }
        PageRequest { path, parameters: self.params }
    }
}

} // verus!
