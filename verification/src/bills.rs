//! The bill list endpoint: its entity, its paged response, and its
//! handler, which narrows the listing by congress and bill category.

use vstd::prelude::*;
use crate::bill_type::{spec_bill_type_code, BillType};
use crate::chamber::{Chamber, ChamberCode};
use crate::datetime::{Date, DateTime};
use crate::decimal::{spec_u32_digits, u32_to_string};
use crate::latest_action::LatestAction;
use crate::pagination::{PagedResponse, Pagination};
use crate::parameters::{HasParameters, PageParameters, Parameters, Sealed, SortParameters};
use crate::request::PageRequest;

verus! {

/// One bill of a list response.
#[derive(Clone, Debug, PartialEq, Eq)]
pub struct Bill {
    pub congress: u32,
    pub latest_action: LatestAction,
    pub number: String,
    pub origin_chamber: Chamber,
    pub origin_chamber_code: ChamberCode,
    pub title: String,
    pub bill_type: BillType,
    pub update_date: Date,
    pub update_date_including_text: DateTime,
    pub url: String,
}

#[derive(Clone, Debug, PartialEq, Eq)]
pub struct BillsResponse {
    pub bills: Vec<Bill>,
    pub pagination: Pagination,
}

impl PagedResponse<Bill> for BillsResponse {
    open spec fn spec_items(&self) -> Seq<Bill> {
        self.bills@
    }

    open spec fn spec_pagination(&self) -> Pagination {
        self.pagination
    }

    fn get_items(&self) -> (r: &Vec<Bill>) {
        &self.bills
    }

    fn get_pagination(&self) -> (r: &Pagination) {
        &self.pagination
    }
}

/// The path of the bill list, narrowed by the optional congress number
/// and bill category.
pub open spec fn spec_bills_path(congress: Option<u32>, bill_type: Option<BillType>) -> Seq<char> {
    seq!['/', 'v', '3', '/', 'b', 'i', 'l', 'l'] + (match congress {
        Some(c) => seq!['/'] + spec_u32_digits(c as nat),
        None => Seq::empty(),
    }) + (match bill_type {
        Some(t) => seq!['/'] + spec_bill_type_code(t),
        None => Seq::empty(),
    })
}

/// Builds the request for the bill list.
#[derive(Clone, Copy, Debug, PartialEq, Eq)]
pub struct BillsHandler {
    pub congress: Option<u32>,
    pub bill_type: Option<BillType>,
    pub parameters: Parameters,
}

impl BillsHandler {
    pub fn new() -> (r: BillsHandler)
        ensures
            r.congress is None,
            r.bill_type is None,
            r.parameters == Parameters::spec_default(),
    {
        BillsHandler { congress: None, bill_type: None, parameters: Parameters::default() }
    }

    /// Restrict the listing to one congress.
    pub fn congress(self, congress: u32) -> (r: Self)
        ensures
            r == (BillsHandler { congress: Some(congress), ..self }),
    {
        BillsHandler { congress: Some(congress), ..self }
    }

    /// Restrict the listing to one bill category.
    pub fn bill_type(self, bill_type: BillType) -> (r: Self)
        ensures
            r == (BillsHandler { bill_type: Some(bill_type), ..self }),
    {
        BillsHandler { bill_type: Some(bill_type), ..self }
    }

    /// The request this handler has accumulated; no network activity
    /// happens before the caller hands it to the executor.
    pub fn request(&self) -> (r: PageRequest)
        ensures
            r.path@ == spec_bills_path(self.congress, self.bill_type),
            r.parameters == self.parameters,
    {
        proof {
            reveal_strlit("/v3/bill");
            assert("/v3/bill"@ =~= seq!['/', 'v', '3', '/', 'b', 'i', 'l', 'l']);
        }
        let mut path = String::from_str("/v3/bill");
        if let Some(c) = self.congress {
            path.push('/');
            path.append(u32_to_string(c).as_str());
        }
        if let Some(t) = &self.bill_type {
            path.push('/');
            path.append(t.as_str());
        }
        proof {
            assert(path@ =~= spec_bills_path(self.congress, self.bill_type));
        }
        PageRequest { path, parameters: self.parameters }
    }
}

impl Sealed for BillsHandler {

}

impl HasParameters for BillsHandler {
    open spec fn params(&self) -> Parameters {
        self.parameters
    }

    open spec fn with_params(self, p: Parameters) -> Self {
        BillsHandler { parameters: p, ..self }
    }

    fn get_parameters(&self) -> (r: Parameters) {
        self.parameters
    }

    fn replace_parameters(self, p: Parameters) -> (r: Self) {
        BillsHandler { parameters: p, ..self }
    }
}

impl PageParameters for BillsHandler {

}

impl SortParameters for BillsHandler {

}

} // verus!
