//! The committees a bill has passed through.

use vstd::prelude::*;
use super::{bill_base_path, spec_bill_base_path, BillHandler};
use crate::chamber::Chamber;
use crate::datetime::DateTime;
use crate::pagination::{PagedResponse, Pagination};
use crate::parameters::{HasParameters, PageParameters, Parameters, Sealed};
use crate::request::PageRequest;

verus! {

#[derive(Clone, Debug, PartialEq, Eq)]
pub struct Activity {
    pub date: DateTime,
    pub name: String,
}

#[derive(Clone, Copy, Debug, PartialEq, Eq, Structural)]
pub enum CommitteeType {
    Standing,
}

#[derive(Clone, Debug, PartialEq, Eq)]
pub struct Committee {
    pub activities: Vec<Activity>,
    pub chamber: Chamber,
    pub name: String,
    pub system_code: String,
    pub committee_type: CommitteeType,
    pub url: String,
}

#[derive(Clone, Debug, PartialEq, Eq)]
pub struct CommitteesResponse {
    pub committees: Vec<Committee>,
    pub pagination: Pagination,
}

impl PagedResponse<Committee> for CommitteesResponse {
    open spec fn spec_items(&self) -> Seq<Committee> {
        self.committees@
    }

    open spec fn spec_pagination(&self) -> Pagination {
        self.pagination
    }

    fn get_items(&self) -> (r: &Vec<Committee>) {
        &self.committees
    }

    fn get_pagination(&self) -> (r: &Pagination) {
        &self.pagination
    }
}

/// The listing's path under its bill.
pub open spec fn spec_committees_path(h: BillHandler) -> Seq<char> {
    spec_bill_base_path(h.congress, h.bill_type, h.bill_number) + seq![
        '/',
        'c',
        'o',
        'm',
        'm',
        'i',
        't',
        't',
        'e',
        'e',
        's',
    ]
}

/// Builds the request for a bill's committee listing.
#[derive(Clone, Copy, Debug, PartialEq, Eq)]
pub struct CommitteesHandler {
    pub handler: BillHandler,
    pub parameters: Parameters,
}

impl CommitteesHandler {
    pub open spec fn spec_new(h: BillHandler) -> CommitteesHandler {
        CommitteesHandler { handler: h, parameters: Parameters::spec_default() }
    }

    pub(super) fn new(handler: &BillHandler) -> (r: Self)
        ensures
            r == Self::spec_new(*handler),
    {
        CommitteesHandler { handler: *handler, parameters: Parameters::default() }
    }

    /// The request this handler has accumulated.
    pub fn request(&self) -> (r: PageRequest)
        ensures
            r.path@ == spec_committees_path(self.handler),
            r.parameters == self.parameters,
    {
        let mut path = bill_base_path(
            self.handler.congress,
            &self.handler.bill_type,
            self.handler.bill_number,
        );
        proof {
            reveal_strlit("/committees");
            assert("/committees"@ =~= seq![
                '/',
                'c',
                'o',
                'm',
                'm',
                'i',
                't',
                't',
                'e',
                'e',
                's',
            ]);
        }
        path.append("/committees");
        proof {
            assert(path@ =~= spec_committees_path(self.handler));
        }
        PageRequest { path, parameters: self.parameters }
    }
}

impl Sealed for CommitteesHandler {

}

impl HasParameters for CommitteesHandler {
    open spec fn params(&self) -> Parameters {
        self.parameters
    }

    open spec fn with_params(self, p: Parameters) -> Self {
        CommitteesHandler { parameters: p, ..self }
    }

    fn get_parameters(&self) -> (r: Parameters) {
        self.parameters
    }

    fn replace_parameters(self, p: Parameters) -> (r: Self) {
        CommitteesHandler { parameters: p, ..self }
    }
}

impl PageParameters for CommitteesHandler {

}

} // verus!
