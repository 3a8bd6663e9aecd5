//! The summaries written for one bill.

use vstd::prelude::*;
use super::{bill_base_path, spec_bill_base_path, BillHandler};
use crate::datetime::{Date, DateTime};
use crate::pagination::{PagedResponse, Pagination};
use crate::parameters::{HasParameters, PageParameters, Parameters, Sealed};
use crate::request::PageRequest;

verus! {

#[derive(Clone, Debug, PartialEq, Eq)]
pub struct Summary {
    pub action_date: Date,
    pub action_desc: String,
    pub text: String,
    pub update_date: DateTime,
    pub version_code: String,
}

#[derive(Clone, Debug, PartialEq, Eq)]
pub struct SummariesResponse {
    pub summaries: Vec<Summary>,
    pub pagination: Pagination,
}

impl PagedResponse<Summary> for SummariesResponse {
    open spec fn spec_items(&self) -> Seq<Summary> {
        self.summaries@
    }

    open spec fn spec_pagination(&self) -> Pagination {
        self.pagination
    }

    fn get_items(&self) -> (r: &Vec<Summary>) {
        &self.summaries
    }

    fn get_pagination(&self) -> (r: &Pagination) {
        &self.pagination
    }
}

/// The listing's path under its bill.
pub open spec fn spec_summaries_path(h: BillHandler) -> Seq<char> {
    spec_bill_base_path(h.congress, h.bill_type, h.bill_number) + seq![
        '/',
        's',
        'u',
        'm',
        'm',
        'a',
        'r',
        'i',
        'e',
        's',
    ]
}

/// Builds the request for a bill's summary listing.
#[derive(Clone, Copy, Debug, PartialEq, Eq)]
pub struct SummariesHandler {
    pub handler: BillHandler,
    pub parameters: Parameters,
}

impl SummariesHandler {
    pub open spec fn spec_new(h: BillHandler) -> SummariesHandler {
        SummariesHandler { handler: h, parameters: Parameters::spec_default() }
    }

    pub(super) fn new(handler: &BillHandler) -> (r: Self)
        ensures
            r == Self::spec_new(*handler),
    {
        SummariesHandler { handler: *handler, parameters: Parameters::default() }
    }

    /// The request this handler has accumulated.
    pub fn request(&self) -> (r: PageRequest)
        ensures
            r.path@ == spec_summaries_path(self.handler),
            r.parameters == self.parameters,
    {
        let mut path = bill_base_path(
            self.handler.congress,
            &self.handler.bill_type,
            self.handler.bill_number,
        );
        proof {
            reveal_strlit("/summaries");
            assert("/summaries"@ =~= seq!['/', 's', 'u', 'm', 'm', 'a', 'r', 'i', 'e', 's']);
        }
        path.append("/summaries");
        proof {
            assert(path@ =~= spec_summaries_path(self.handler));
        }
        PageRequest { path, parameters: self.parameters }
    }
}

impl Sealed for SummariesHandler {

}

impl HasParameters for SummariesHandler {
    open spec fn params(&self) -> Parameters {
        self.parameters
    }

    open spec fn with_params(self, p: Parameters) -> Self {
        SummariesHandler { parameters: p, ..self }
    }

    fn get_parameters(&self) -> (r: Parameters) {
        self.parameters
    }

    fn replace_parameters(self, p: Parameters) -> (r: Self) {
        SummariesHandler { parameters: p, ..self }
    }
}

impl PageParameters for SummariesHandler {

}

} // verus!
