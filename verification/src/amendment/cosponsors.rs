//! The cosponsors of one amendment.

use vstd::prelude::*;
use super::{amendment_base_path, spec_amendment_base_path, AmendmentHandler};
use crate::datetime::Date;
use crate::request::PageRequest;

verus! {

#[derive(Clone, Debug, PartialEq, Eq)]
pub struct Cosponsor {
    pub bioguide_id: String,
    pub first_name: String,
    pub full_name: String,
    pub is_original_cosponsor: bool,
    pub last_name: String,
    pub party: String,
    pub sponsorship_date: Date,
    pub url: String,
}

/// This listing carries no pagination envelope upstream.
#[derive(Clone, Debug, PartialEq, Eq)]
pub struct CosponsorsResponse {
    pub cosponsors: Vec<Cosponsor>,
}

/// The listing's path under its amendment.
pub open spec fn spec_cosponsors_path(h: AmendmentHandler) -> Seq<char> {
    spec_amendment_base_path(h.congress, h.amendment_type, h.amendment_number) + seq![
        '/',
        'c',
        'o',
        's',
        'p',
        'o',
        'n',
        's',
        'o',
        'r',
        's',
    ]
}

/// Builds the request for an amendment's cosponsor listing.
#[derive(Clone, Copy, Debug, PartialEq, Eq)]
pub struct CosponsorsHandler {
    pub handler: AmendmentHandler,
}

impl CosponsorsHandler {
    pub open spec fn spec_new(h: AmendmentHandler) -> CosponsorsHandler {
        CosponsorsHandler { handler: h }
    }

    pub(super) fn new(handler: &AmendmentHandler) -> (r: Self)
        ensures
            r == Self::spec_new(*handler),
    {
        CosponsorsHandler { handler: *handler }
    }

    /// The request this handler has accumulated; the parameters are the
    /// parent amendment's.
    pub fn request(&self) -> (r: PageRequest)
        ensures
            r.path@ == spec_cosponsors_path(self.handler),
            r.parameters == self.handler.params,
    {
        let mut path = amendment_base_path(
            self.handler.congress,
            &self.handler.amendment_type,
            self.handler.amendment_number,
        );
        proof {
            reveal_strlit("/cosponsors");
            assert("/cosponsors"@ =~= seq![
                '/',
                'c',
                'o',
                's',
                'p',
                'o',
                'n',
                's',
                'o',
                'r',
                's',
            ]);
        }
        path.append("/cosponsors");
        proof {
            assert(path@ =~= spec_cosponsors_path(self.handler));
        }
        PageRequest { path, parameters: self.handler.params }
    }
}

} // verus!
