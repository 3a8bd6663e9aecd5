//! The titles given to one bill.

use vstd::prelude::*;
use super::{bill_base_path, spec_bill_base_path, BillHandler};
use crate::chamber::{Chamber, ChamberCode};
use crate::pagination::{PagedResponse, Pagination};
use crate::parameters::{HasParameters, PageParameters, Parameters, Sealed};
use crate::request::PageRequest;

verus! {

#[derive(Clone, Debug, PartialEq, Eq)]
pub struct Title {
    pub bill_text_version_code: String,
    pub bill_text_version_name: String,
    pub chamber_code: ChamberCode,
    pub chamber_name: Chamber,
    pub title: String,
    pub title_type: String,
}

#[derive(Clone, Debug, PartialEq, Eq)]
pub struct TitlesResponse {
    pub titles: Vec<Title>,
    pub pagination: Pagination,
}

impl PagedResponse<Title> for TitlesResponse {
    open spec fn spec_items(&self) -> Seq<Title> {
        self.titles@
    }

    open spec fn spec_pagination(&self) -> Pagination {
        self.pagination
    }

    fn get_items(&self) -> (r: &Vec<Title>) {
        &self.titles
    }

    fn get_pagination(&self) -> (r: &Pagination) {
        &self.pagination
    }
}

/// The listing's path under its bill.
pub open spec fn spec_titles_path(h: BillHandler) -> Seq<char> {
    spec_bill_base_path(h.congress, h.bill_type, h.bill_number) + seq![
        '/',
        't',
        'i',
        't',
        'l',
        'e',
        's',
    ]
}

/// Builds the request for a bill's title listing.
#[derive(Clone, Copy, Debug, PartialEq, Eq)]
pub struct TitlesHandler {
    pub handler: BillHandler,
    pub parameters: Parameters,
}

impl TitlesHandler {
    pub open spec fn spec_new(h: BillHandler) -> TitlesHandler {
        TitlesHandler { handler: h, parameters: Parameters::spec_default() }
    }

    pub(super) fn new(handler: &BillHandler) -> (r: Self)
        ensures
            r == Self::spec_new(*handler),
    {
        TitlesHandler { handler: *handler, parameters: Parameters::default() }
    }

    /// The request this handler has accumulated.
    pub fn request(&self) -> (r: PageRequest)
        ensures
            r.path@ == spec_titles_path(self.handler),
            r.parameters == self.parameters,
    {
        let mut path = bill_base_path(
            self.handler.congress,
            &self.handler.bill_type,
            self.handler.bill_number,
        );
        proof {
            reveal_strlit("/titles");
            assert("/titles"@ =~= seq!['/', 't', 'i', 't', 'l', 'e', 's']);
        }
        path.append("/titles");
        proof {
            assert(path@ =~= spec_titles_path(self.handler));
        }
        PageRequest { path, parameters: self.parameters }
    }
}

impl Sealed for TitlesHandler {

}

impl HasParameters for TitlesHandler {
    open spec fn params(&self) -> Parameters {
        self.parameters
    }

    open spec fn with_params(self, p: Parameters) -> Self {
        TitlesHandler { parameters: p, ..self }
    }

    fn get_parameters(&self) -> (r: Parameters) {
        self.parameters
    }

    fn replace_parameters(self, p: Parameters) -> (r: Self) {
        TitlesHandler { parameters: p, ..self }
    }
}

impl PageParameters for TitlesHandler {

}

} // verus!
