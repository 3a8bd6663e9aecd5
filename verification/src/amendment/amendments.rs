//! The amendments offered to one amendment.

use vstd::prelude::*;
use super::{amendment_base_path, spec_amendment_base_path, AmendmentHandler};
use crate::amendment_type::AmendmentType;
use crate::datetime::Date;
use crate::page::{PagedResponse, Pagination};
use crate::pagination::link_of;
use crate::request::PageRequest;

verus! {

#[derive(Clone, Debug, PartialEq, Eq)]
pub struct LatestAction {
    pub date: Date,
    pub text: String,
}

#[derive(Clone, Debug, PartialEq, Eq)]
pub struct Amendment {
    pub congress: u32,
    pub latest_action: Option<LatestAction>,
    pub number: String,
    pub purpose: Option<String>,
    pub amendment_type: AmendmentType,
    pub url: String,
}

#[derive(Clone, Debug, PartialEq, Eq)]
pub struct AmendmentsResponse {
    pub amendments: Vec<Amendment>,
    pub pagination: Pagination,
}

impl PagedResponse for AmendmentsResponse {
    open spec fn prev_link(&self) -> Option<Seq<char>> {
        link_of(self.pagination.prev)
    }

    open spec fn next_link(&self) -> Option<Seq<char>> {
        link_of(self.pagination.next)
    }

    fn previous(&self) -> (r: Option<String>) {
        match &self.pagination.prev {
            Some(s) => Some(s.clone()),
            None => None,
        }
    }

    fn next(&self) -> (r: Option<String>) {
        match &self.pagination.next {
            Some(s) => Some(s.clone()),
            None => None,
        }
    }
}

/// The listing's path under its amendment.
pub open spec fn spec_amendments_path(h: AmendmentHandler) -> Seq<char> {
    spec_amendment_base_path(h.congress, h.amendment_type, h.amendment_number) + seq![
        '/',
        'a',
        'm',
        'e',
        'n',
        'd',
        'm',
        'e',
        'n',
        't',
        's',
    ]
}

/// Builds the request for an amendment's amendment listing.
#[derive(Clone, Copy, Debug, PartialEq, Eq)]
pub struct AmendmentsHandler {
    pub handler: AmendmentHandler,
}

impl AmendmentsHandler {
    pub open spec fn spec_new(h: AmendmentHandler) -> AmendmentsHandler {
        AmendmentsHandler { handler: h }
    }

    pub(super) fn new(handler: &AmendmentHandler) -> (r: Self)
        ensures
            r == Self::spec_new(*handler),
    {
        AmendmentsHandler { handler: *handler }
    }

    /// The request this handler has accumulated; the parameters are the
    /// parent amendment's.
    pub fn request(&self) -> (r: PageRequest)
        ensures
            r.path@ == spec_amendments_path(self.handler),
            r.parameters == self.handler.params,
    {
        let mut path = amendment_base_path(
            self.handler.congress,
            &self.handler.amendment_type,
            self.handler.amendment_number,
        );
        proof {
            reveal_strlit("/amendments");
            assert("/amendments"@ =~= seq![
                '/',
                'a',
                'm',
                'e',
                'n',
                'd',
                'm',
                'e',
                'n',
                't',
                's',
            ]);
        }
        path.append("/amendments");
        proof {
            assert(path@ =~= spec_amendments_path(self.handler));
        }
        PageRequest { path, parameters: self.handler.params }
    }
}

} // verus!
