//! The amendments offered to one bill.

use vstd::prelude::*;
use super::{bill_base_path, spec_bill_base_path, BillHandler};
use crate::amendment_type::AmendmentType;
use crate::datetime::DateTime;
use crate::latest_action::LatestAction;
use crate::pagination::{PagedResponse, Pagination};
use crate::parameters::{HasParameters, PageParameters, Parameters, Sealed};
use crate::request::PageRequest;

verus! {

#[derive(Clone, Debug, PartialEq, Eq)]
pub struct Amendment {
    pub congress: u32,
    pub description: String,
    pub latest_action: LatestAction,
    pub number: String,
    pub amendment_type: AmendmentType,
    pub update_date: DateTime,
    pub url: String,
}

#[derive(Clone, Debug, PartialEq, Eq)]
pub struct AmendmentsResponse {
    pub amendments: Vec<Amendment>,
    pub pagination: Pagination,
}

impl PagedResponse<Amendment> for AmendmentsResponse {
    open spec fn spec_items(&self) -> Seq<Amendment> {
        self.amendments@
    }

    open spec fn spec_pagination(&self) -> Pagination {
        self.pagination
    }

    fn get_items(&self) -> (r: &Vec<Amendment>) {
        &self.amendments
    }

    fn get_pagination(&self) -> (r: &Pagination) {
        &self.pagination
    }
}

/// The listing's path under its bill.
pub open spec fn spec_amendments_path(h: BillHandler) -> Seq<char> {
    spec_bill_base_path(h.congress, h.bill_type, h.bill_number) + seq![
        '/',
        'a',
        'm',
        'e',
        'n',
        'd',
        'm',
        'e',
        'n',
        't',
        's',
    ]
}

/// Builds the request for a bill's amendment listing.
#[derive(Clone, Copy, Debug, PartialEq, Eq)]
pub struct AmendmentsHandler {
    pub handler: BillHandler,
    pub parameters: Parameters,
}

impl AmendmentsHandler {
    pub open spec fn spec_new(h: BillHandler) -> AmendmentsHandler {
        AmendmentsHandler { handler: h, parameters: Parameters::spec_default() }
    }

    pub(super) fn new(handler: &BillHandler) -> (r: Self)
        ensures
            r == Self::spec_new(*handler),
    {
        AmendmentsHandler { handler: *handler, parameters: Parameters::default() }
    }

    /// The request this handler has accumulated.
    pub fn request(&self) -> (r: PageRequest)
        ensures
            r.path@ == spec_amendments_path(self.handler),
            r.parameters == self.parameters,
    {
        let mut path = bill_base_path(
            self.handler.congress,
            &self.handler.bill_type,
            self.handler.bill_number,
        );
        proof {
            reveal_strlit("/amendments");
            assert("/amendments"@ =~= seq![
                '/',
                'a',
                'm',
                'e',
                'n',
                'd',
                'm',
                'e',
                'n',
                't',
                's',
            ]);
        }
        path.append("/amendments");
        proof {
            assert(path@ =~= spec_amendments_path(self.handler));
        }
        PageRequest { path, parameters: self.parameters }
    }
}

impl Sealed for AmendmentsHandler {

}

impl HasParameters for AmendmentsHandler {
    open spec fn params(&self) -> Parameters {
        self.parameters
    }

    open spec fn with_params(self, p: Parameters) -> Self {
        AmendmentsHandler { parameters: p, ..self }
    }

    fn get_parameters(&self) -> (r: Parameters) {
        self.parameters
    }

    fn replace_parameters(self, p: Parameters) -> (r: Self) {
        AmendmentsHandler { parameters: p, ..self }
    }
}

impl PageParameters for AmendmentsHandler {

}

} // verus!
