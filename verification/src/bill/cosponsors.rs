//! The cosponsors of one bill.

use vstd::prelude::*;
use super::{bill_base_path, spec_bill_base_path, BillHandler};
use crate::datetime::Date;
use crate::pagination::{PagedResponse, Pagination};
use crate::parameters::{HasParameters, PageParameters, Parameters, Sealed};
use crate::request::PageRequest;

verus! {

#[derive(Clone, Debug, PartialEq, Eq)]
pub struct Cosponsor {
    pub bioguide_id: String,
    pub district: u32,
    pub first_name: String,
    pub full_name: String,
    pub is_originial_cosponsor: bool,
    pub last_name: String,
    pub middle_name: String,
    pub party: String,
    pub sponsorship_date: Date,
    pub state: String,
    pub url: String,
}

#[derive(Clone, Debug, PartialEq, Eq)]
pub struct CosponsorsResponse {
    pub cosponsors: Vec<Cosponsor>,
    pub pagination: Pagination,
}

impl PagedResponse<Cosponsor> for CosponsorsResponse {
    open spec fn spec_items(&self) -> Seq<Cosponsor> {
        self.cosponsors@
    }

    open spec fn spec_pagination(&self) -> Pagination {
        self.pagination
    }

    fn get_items(&self) -> (r: &Vec<Cosponsor>) {
        &self.cosponsors
    }

    fn get_pagination(&self) -> (r: &Pagination) {
        &self.pagination
    }
}

/// The listing's path under its bill.
pub open spec fn spec_cosponsors_path(h: BillHandler) -> Seq<char> {
    spec_bill_base_path(h.congress, h.bill_type, h.bill_number) + seq![
        '/',
        'c',
        'o',
        's',
        'p',
        'o',
        'n',
        's',
        'o',
        'r',
        's',
    ]
}

/// Builds the request for a bill's cosponsor listing.
#[derive(Clone, Copy, Debug, PartialEq, Eq)]
pub struct CosponsorsHandler {
    pub handler: BillHandler,
    pub parameters: Parameters,
}

impl CosponsorsHandler {
    pub open spec fn spec_new(h: BillHandler) -> CosponsorsHandler {
        CosponsorsHandler { handler: h, parameters: Parameters::spec_default() }
    }

    pub(super) fn new(handler: &BillHandler) -> (r: Self)
        ensures
            r == Self::spec_new(*handler),
    {
        CosponsorsHandler { handler: *handler, parameters: Parameters::default() }
    }

    /// The request this handler has accumulated.
    pub fn request(&self) -> (r: PageRequest)
        ensures
            r.path@ == spec_cosponsors_path(self.handler),
            r.parameters == self.parameters,
    {
        let mut path = bill_base_path(
            self.handler.congress,
            &self.handler.bill_type,
            self.handler.bill_number,
        );
        proof {
            reveal_strlit("/cosponsors");
            assert("/cosponsors"@ =~= seq![
                '/',
                'c',
                'o',
                's',
                'p',
                'o',
                'n',
                's',
                'o',
                'r',
                's',
            ]);
        }
        path.append("/cosponsors");
        proof {
            assert(path@ =~= spec_cosponsors_path(self.handler));
        }
        PageRequest { path, parameters: self.parameters }
    }
}

impl Sealed for CosponsorsHandler {

}

impl HasParameters for CosponsorsHandler {
    open spec fn params(&self) -> Parameters {
        self.parameters
    }

    open spec fn with_params(self, p: Parameters) -> Self {
        CosponsorsHandler { parameters: p, ..self }
    }

    fn get_parameters(&self) -> (r: Parameters) {
        self.parameters
    }

    fn replace_parameters(self, p: Parameters) -> (r: Self) {
        CosponsorsHandler { parameters: p, ..self }
    }
}

impl PageParameters for CosponsorsHandler {

}

} // verus!
