//! The text versions published for one bill.

use vstd::prelude::*;
use super::{bill_base_path, spec_bill_base_path, BillHandler};
use crate::datetime::DateTime;
use crate::pagination::{PagedResponse, Pagination};
use crate::parameters::{HasParameters, PageParameters, Parameters, Sealed};
use crate::request::PageRequest;

verus! {

#[derive(Clone, Debug, PartialEq, Eq)]
pub struct Format {
    pub type_: String,
    pub url: String,
}

#[derive(Clone, Debug, PartialEq, Eq)]
pub struct TextVersion {
    pub date: DateTime,
    pub formats: Vec<Format>,
    pub type_: String,
}

#[derive(Clone, Debug, PartialEq, Eq)]
pub struct TextResponse {
    pub text_versions: Vec<TextVersion>,
    pub pagination: Pagination,
}

impl PagedResponse<TextVersion> for TextResponse {
    open spec fn spec_items(&self) -> Seq<TextVersion> {
        self.text_versions@
    }

    open spec fn spec_pagination(&self) -> Pagination {
        self.pagination
    }

    fn get_items(&self) -> (r: &Vec<TextVersion>) {
        &self.text_versions
    }

    fn get_pagination(&self) -> (r: &Pagination) {
        &self.pagination
    }
}

/// The listing's path under its bill.
pub open spec fn spec_text_path(h: BillHandler) -> Seq<char> {
    spec_bill_base_path(h.congress, h.bill_type, h.bill_number) + seq!['/', 't', 'e', 'x', 't']
}

/// Builds the request for a bill's text-version listing.
#[derive(Clone, Copy, Debug, PartialEq, Eq)]
pub struct TextHandler {
    pub handler: BillHandler,
    pub parameters: Parameters,
}

impl TextHandler {
    pub open spec fn spec_new(h: BillHandler) -> TextHandler {
        TextHandler { handler: h, parameters: Parameters::spec_default() }
    }

    pub(super) fn new(handler: &BillHandler) -> (r: Self)
        ensures
            r == Self::spec_new(*handler),
    {
        TextHandler { handler: *handler, parameters: Parameters::default() }
    }

    /// The request this handler has accumulated.
    pub fn request(&self) -> (r: PageRequest)
        ensures
            r.path@ == spec_text_path(self.handler),
            r.parameters == self.parameters,
    {
        let mut path = bill_base_path(
            self.handler.congress,
            &self.handler.bill_type,
            self.handler.bill_number,
        );
        proof {
            reveal_strlit("/text");
            assert("/text"@ =~= seq!['/', 't', 'e', 'x', 't']);
        }
        path.append("/text");
        proof {
            assert(path@ =~= spec_text_path(self.handler));
        }
        PageRequest { path, parameters: self.parameters }
    }
}

impl Sealed for TextHandler {

}

impl HasParameters for TextHandler {
    open spec fn params(&self) -> Parameters {
        self.parameters
    }

    open spec fn with_params(self, p: Parameters) -> Self {
        TextHandler { parameters: p, ..self }
    }

    fn get_parameters(&self) -> (r: Parameters) {
        self.parameters
    }

    fn replace_parameters(self, p: Parameters) -> (r: Self) {
        TextHandler { parameters: p, ..self }
    }
}

impl PageParameters for TextHandler {

}

} // verus!
