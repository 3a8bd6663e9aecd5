//! The bills related to one bill.

use vstd::prelude::*;
use super::{bill_base_path, spec_bill_base_path, BillHandler};
use crate::bill_type::BillType;
use crate::latest_action::LatestAction;
use crate::pagination::{PagedResponse, Pagination};
use crate::parameters::{HasParameters, PageParameters, Parameters, Sealed};
use crate::request::PageRequest;

verus! {

#[derive(Clone, Debug, PartialEq, Eq)]
pub struct RelationshipDetail {
    pub identified_by: String,
    pub type_: String,
}

#[derive(Clone, Debug, PartialEq, Eq)]
pub struct RelatedBill {
    pub congress: u32,
    pub latest_action: LatestAction,
    pub number: u32,
    pub relationship_details: Vec<RelationshipDetail>,
    pub title: String,
    pub bill_type: BillType,
    pub url: String,
}

#[derive(Clone, Debug, PartialEq, Eq)]
pub struct RelatedBillsResponse {
    pub related_bills: Vec<RelatedBill>,
    pub pagination: Pagination,
}

impl PagedResponse<RelatedBill> for RelatedBillsResponse {
    open spec fn spec_items(&self) -> Seq<RelatedBill> {
        self.related_bills@
    }

    open spec fn spec_pagination(&self) -> Pagination {
        self.pagination
    }

    fn get_items(&self) -> (r: &Vec<RelatedBill>) {
        &self.related_bills
    }

    fn get_pagination(&self) -> (r: &Pagination) {
        &self.pagination
    }
}

/// The listing's path under its bill.
pub open spec fn spec_related_bills_path(h: BillHandler) -> Seq<char> {
    spec_bill_base_path(h.congress, h.bill_type, h.bill_number) + seq![
        '/',
        'r',
        'e',
        'l',
        'a',
        't',
        'e',
        'd',
        'b',
        'i',
        'l',
        'l',
        's',
    ]
}

/// Builds the request for a bill's related-bill listing.
#[derive(Clone, Copy, Debug, PartialEq, Eq)]
pub struct RelatedBillsHandler {
    pub handler: BillHandler,
    pub parameters: Parameters,
}

impl RelatedBillsHandler {
    pub open spec fn spec_new(h: BillHandler) -> RelatedBillsHandler {
        RelatedBillsHandler { handler: h, parameters: Parameters::spec_default() }
    }

    pub(super) fn new(handler: &BillHandler) -> (r: Self)
        ensures
            r == Self::spec_new(*handler),
    {
        RelatedBillsHandler { handler: *handler, parameters: Parameters::default() }
    }

    /// The request this handler has accumulated.
    pub fn request(&self) -> (r: PageRequest)
        ensures
            r.path@ == spec_related_bills_path(self.handler),
            r.parameters == self.parameters,
    {
        let mut path = bill_base_path(
            self.handler.congress,
            &self.handler.bill_type,
            self.handler.bill_number,
        );
        proof {
            reveal_strlit("/relatedbills");
            assert("/relatedbills"@ =~= seq![
                '/',
                'r',
                'e',
                'l',
                'a',
                't',
                'e',
                'd',
                'b',
                'i',
                'l',
                'l',
                's',
            ]);
        }
        path.append("/relatedbills");
        proof {
            assert(path@ =~= spec_related_bills_path(self.handler));
        }
        PageRequest { path, parameters: self.parameters }
    }
}

impl Sealed for RelatedBillsHandler {

}

impl HasParameters for RelatedBillsHandler {
    open spec fn params(&self) -> Parameters {
        self.parameters
    }

    open spec fn with_params(self, p: Parameters) -> Self {
        RelatedBillsHandler { parameters: p, ..self }
    }

    fn get_parameters(&self) -> (r: Parameters) {
        self.parameters
    }

    fn replace_parameters(self, p: Parameters) -> (r: Self) {
        RelatedBillsHandler { parameters: p, ..self }
    }
}

impl PageParameters for RelatedBillsHandler {

}

} // verus!
