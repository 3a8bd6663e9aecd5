//! The legislative subjects assigned to one bill.

use vstd::prelude::*;
use super::{bill_base_path, spec_bill_base_path, BillHandler};
use crate::parameters::{HasParameters, PageParameters, Parameters, Sealed};
use crate::request::PageRequest;

verus! {

#[derive(Clone, Debug, PartialEq, Eq)]
pub struct LegislativeSubject {
    pub name: String,
}

/// The upstream subject listing carries no fields this crate reads yet.
#[derive(Clone, Debug, PartialEq, Eq)]
pub struct SubjectsResponse {

}

/// The listing's path under its bill.
pub open spec fn spec_subjects_path(h: BillHandler) -> Seq<char> {
    spec_bill_base_path(h.congress, h.bill_type, h.bill_number) + seq![
        '/',
        's',
        'u',
        'b',
        'j',
        'e',
        'c',
        't',
        's',
    ]
}

/// Builds the request for a bill's subject listing.
#[derive(Clone, Copy, Debug, PartialEq, Eq)]
pub struct SubjectsHandler {
    pub handler: BillHandler,
    pub parameters: Parameters,
}

impl SubjectsHandler {
    pub open spec fn spec_new(h: BillHandler) -> SubjectsHandler {
        SubjectsHandler { handler: h, parameters: Parameters::spec_default() }
    }

    pub(super) fn new(handler: &BillHandler) -> (r: Self)
        ensures
            r == Self::spec_new(*handler),
    {
        SubjectsHandler { handler: *handler, parameters: Parameters::default() }
    }

    /// The request this handler has accumulated.
    pub fn request(&self) -> (r: PageRequest)
        ensures
            r.path@ == spec_subjects_path(self.handler),
            r.parameters == self.parameters,
    {
        let mut path = bill_base_path(
            self.handler.congress,
            &self.handler.bill_type,
            self.handler.bill_number,
        );
        proof {
            reveal_strlit("/subjects");
            assert("/subjects"@ =~= seq!['/', 's', 'u', 'b', 'j', 'e', 'c', 't', 's']);
        }
        path.append("/subjects");
        proof {
            assert(path@ =~= spec_subjects_path(self.handler));
        }
        PageRequest { path, parameters: self.parameters }
    }
}

impl Sealed for SubjectsHandler {

}

impl HasParameters for SubjectsHandler {
    open spec fn params(&self) -> Parameters {
        self.parameters
    }

    open spec fn with_params(self, p: Parameters) -> Self {
        SubjectsHandler { parameters: p, ..self }
    }

    fn get_parameters(&self) -> (r: Parameters) {
        self.parameters
    }

    fn replace_parameters(self, p: Parameters) -> (r: Self) {
        SubjectsHandler { parameters: p, ..self }
    }
}

impl PageParameters for SubjectsHandler {

}

} // verus!
