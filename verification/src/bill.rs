//! A single bill: its record with the counters of its sub-resources, and
//! the handler whose path scopes every sub-resource listing.

use vstd::prelude::*;
use crate::bill_type::{spec_bill_type_code, BillType};
use crate::chamber::Chamber;
use crate::datetime::{Date, DateTime};
use crate::decimal::{spec_u32_digits, u32_to_string};
use crate::latest_action::LatestAction;
use crate::request::PageRequest;

use self::actions::ActionsHandler;
use self::amendments::AmendmentsHandler;
use self::committees::CommitteesHandler;
use self::cosponsors::CosponsorsHandler;
use self::related_bills::RelatedBillsHandler;
use self::subjects::SubjectsHandler;
use self::summaries::SummariesHandler;
use self::text::TextHandler;
use self::titles::TitlesHandler;

pub mod actions;
pub mod amendments;
pub mod committees;
pub mod cosponsors;
pub mod related_bills;
pub mod subjects;
pub mod summaries;
pub mod text;
pub mod titles;

verus! {

#[derive(Clone, Debug, PartialEq, Eq)]
pub struct Actions {
    pub count: u32,
    pub url: String,
}

#[derive(Clone, Debug, PartialEq, Eq)]
pub struct Amendments {
    pub count: u32,
    pub url: String,
}

#[derive(Clone, Debug, PartialEq, Eq)]
pub struct CboCostEstimate {
    pub description: String,
    pub pub_date: Option<DateTime>,
    pub title: String,
    pub url: String,
}

#[derive(Clone, Debug, PartialEq, Eq)]
pub struct CommitteeReport {
    pub citation: String,
    pub url: String,
}

#[derive(Clone, Debug, PartialEq, Eq)]
pub struct Committees {
    pub count: u32,
    pub url: String,
}

#[derive(Clone, Debug, PartialEq, Eq)]
pub struct Cosponsors {
    pub count: u32,
    pub count_including_withdrawn_cosponsors: Option<u32>,
    pub url: String,
}

#[derive(Clone, Debug, PartialEq, Eq)]
pub struct Law {
    pub number: String,
    pub type_: String,
}

#[derive(Clone, Debug, PartialEq, Eq)]
pub struct PolicyArea {
    pub name: String,
}

#[derive(Clone, Debug, PartialEq, Eq)]
pub struct RelatedBills {
    pub count: u32,
    pub url: String,
}

#[derive(Clone, Debug, PartialEq, Eq)]
pub struct Sponsor {
    pub bioguide_id: String,
    pub district: Option<u32>,
    pub first_name: String,
    pub full_name: String,
    pub is_by_request: String,
    pub last_name: String,
    pub middle_name: Option<String>,
    pub party: String,
    pub state: String,
    pub url: String,
}

#[derive(Clone, Debug, PartialEq, Eq)]
pub struct Subjects {
    pub count: u32,
    pub url: String,
}

#[derive(Clone, Debug, PartialEq, Eq)]
pub struct Summaries {
    pub count: u32,
    pub url: String,
}

#[derive(Clone, Debug, PartialEq, Eq)]
pub struct TextVersions {
    pub count: u32,
    pub url: String,
}

#[derive(Clone, Debug, PartialEq, Eq)]
pub struct Titles {
    pub count: u32,
    pub url: String,
}

/// The full record of one bill.
#[derive(Clone, Debug, PartialEq, Eq)]
pub struct Bill {
    pub actions: Actions,
    pub amendments: Option<Amendments>,
    pub cbo_cost_estimates: Option<Vec<CboCostEstimate>>,
    pub committee_reports: Option<Vec<CommitteeReport>>,
    pub committees: Committees,
    pub congress: u32,
    pub constitutional_authority_statement_text: Option<String>,
    pub cosponsors: Option<Cosponsors>,
    pub introduced_date: Date,
    pub latest_action: LatestAction,
    pub laws: Option<Vec<Law>>,
    pub number: String,
    pub origin_chamber: Chamber,
    pub policy_area: Option<PolicyArea>,
    pub related_bills: Option<RelatedBills>,
    pub sponsors: Option<Vec<Sponsor>>,
    pub subjects: Option<Subjects>,
    pub summaries: Option<Summaries>,
    pub text_versions: Option<TextVersions>,
    pub title: String,
    pub update_date: DateTime,
    pub update_date_including_text: DateTime,
}

#[derive(Clone, Debug, PartialEq, Eq)]
pub struct BillResponse {
    pub bill: Bill,
}

/// The path that scopes one bill:
/// `/v3/bill/<congress>/<bill type>/<bill number>`.
pub open spec fn spec_bill_base_path(congress: u32, bill_type: BillType, bill_number: u32) -> Seq<
    char,
> {
    seq!['/', 'v', '3', '/', 'b', 'i', 'l', 'l', '/'] + spec_u32_digits(congress as nat)
        + seq!['/'] + spec_bill_type_code(bill_type) + seq!['/'] + spec_u32_digits(
        bill_number as nat,
    )
}

/// Render the path that scopes one bill.
pub(crate) fn bill_base_path(congress: u32, bill_type: &BillType, bill_number: u32) -> (r: String)
    ensures
        r@ == spec_bill_base_path(congress, *bill_type, bill_number),
{
    proof {
        reveal_strlit("/v3/bill/");
        assert("/v3/bill/"@ =~= seq!['/', 'v', '3', '/', 'b', 'i', 'l', 'l', '/']);
    }
    let mut path = String::from_str("/v3/bill/");
    path.append(u32_to_string(congress).as_str());
    path.push('/');
    path.append(bill_type.as_str());
    path.push('/');
    path.append(u32_to_string(bill_number).as_str());
    proof {
        assert(path@ =~= spec_bill_base_path(congress, *bill_type, bill_number));
    }
    path
}

/// Addresses one bill and opens its sub-resource listings.
#[derive(Clone, Copy, Debug, PartialEq, Eq)]
pub struct BillHandler {
    pub congress: u32,
    pub bill_type: BillType,
    pub bill_number: u32,
}

impl BillHandler {
    pub fn new(congress: u32, bill_type: BillType, bill_number: u32) -> (r: BillHandler)
        ensures
            r == (BillHandler { congress, bill_type, bill_number }),
    {
        BillHandler { congress, bill_type, bill_number }
    }

    /// The request for the bill itself.
    pub fn request(&self) -> (r: PageRequest)
        ensures
            r.path@ == spec_bill_base_path(self.congress, self.bill_type, self.bill_number),
            r.parameters == crate::parameters::Parameters::spec_default(),
    {
        PageRequest {
            path: bill_base_path(self.congress, &self.bill_type, self.bill_number),
            parameters: crate::parameters::Parameters::default(),
        }
    }

    pub fn actions(&self) -> (r: ActionsHandler)
        ensures
            r == ActionsHandler::spec_new(*self),
    {
        ActionsHandler::new(self)
    }

    pub fn amendments(&self) -> (r: AmendmentsHandler)
        ensures
            r == AmendmentsHandler::spec_new(*self),
    {
        AmendmentsHandler::new(self)
    }

    pub fn committees(&self) -> (r: CommitteesHandler)
        ensures
            r == CommitteesHandler::spec_new(*self),
    {
        CommitteesHandler::new(self)
    }

    pub fn cosponsors(&self) -> (r: CosponsorsHandler)
        ensures
            r == CosponsorsHandler::spec_new(*self),
    {
        CosponsorsHandler::new(self)
    }

    pub fn related_bills(&self) -> (r: RelatedBillsHandler)
        ensures
            r == RelatedBillsHandler::spec_new(*self),
    {
        RelatedBillsHandler::new(self)
    }

    pub fn subjects(&self) -> (r: SubjectsHandler)
        ensures
            r == SubjectsHandler::spec_new(*self),
    {
        SubjectsHandler::new(self)
    }

    pub fn summaries(&self) -> (r: SummariesHandler)
        ensures
            r == SummariesHandler::spec_new(*self),
    {
        SummariesHandler::new(self)
    }

    pub fn text(&self) -> (r: TextHandler)
        ensures
            r == TextHandler::spec_new(*self),
    {
        TextHandler::new(self)
    }

    pub fn titles(&self) -> (r: TitlesHandler)
        ensures
            r == TitlesHandler::spec_new(*self),
    {
        TitlesHandler::new(self)
    }
}

} // verus!
