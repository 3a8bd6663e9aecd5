//! A single amendment: its record, and the handler whose path scopes its
//! sub-resource listings.

use vstd::prelude::*;
use crate::amendment_type::{spec_amendment_type_code, AmendmentType};
use crate::bill_type::BillType;
use crate::chamber::Chamber;
use crate::datetime::{Date, DateTime};
use crate::decimal::{spec_u32_digits, u32_to_string};
use crate::parameters::Parameters;
use crate::request::PageRequest;

use self::actions::ActionsHandler;
use self::amendments::AmendmentsHandler;
use self::cosponsors::CosponsorsHandler;

pub mod actions;
pub mod amendments;
pub mod cosponsors;

verus! {

#[derive(Clone, Debug, PartialEq, Eq)]
pub struct Actions {
    pub count: u32,
    pub url: String,
}

#[derive(Clone, Debug, PartialEq, Eq)]
pub struct AmendedBill {
    pub congress: u32,
    pub number: String,
    pub origin_chamber: Chamber,
    pub origin_chamber_code: String,
    pub title: String,
    pub bill_type: BillType,
    pub url: String,
}

#[derive(Clone, Debug, PartialEq, Eq)]
pub struct AmendmentsToAmendment {
    pub count: u32,
    pub url: String,
}

#[derive(Clone, Debug, PartialEq, Eq)]
pub struct Cosponsors {
    pub count: u32,
    pub count_including_withdrawn_cosponsors: u32,
    pub url: String,
}

#[derive(Clone, Debug, PartialEq, Eq)]
pub struct LatestAction {
    pub action_date: Date,
    pub text: String,
}

#[derive(Clone, Debug, PartialEq, Eq)]
pub struct Sponsor {
    pub bioguide_id: String,
    pub first_name: String,
    pub full_name: String,
    pub last_name: String,
    pub url: String,
}

/// The full record of one amendment.
#[derive(Clone, Debug, PartialEq, Eq)]
pub struct Amendment {
    pub actions: Actions,
    pub amended_bill: AmendedBill,
    pub amendments_to_amendment: AmendmentsToAmendment,
    pub chamber: Chamber,
    pub congress: u32,
    pub cosponsors: Cosponsors,
    pub latest_action: LatestAction,
    pub number: String,
    pub proposed_date: DateTime,
    pub purpose: String,
    pub sponsors: Vec<Sponsor>,
    pub submitted_date: DateTime,
    pub amendment_type: Option<AmendmentType>,
    pub update_date: DateTime,
}

#[derive(Clone, Debug, PartialEq, Eq)]
pub struct AmendmentResponse {
    pub amendment: Amendment,
}

/// The path that scopes one amendment:
/// `/v3/amendment/<congress>/<amendment type>/<amendment number>`.
pub open spec fn spec_amendment_base_path(
    congress: u32,
    amendment_type: AmendmentType,
    amendment_number: u32,
) -> Seq<char> {
    seq!['/', 'v', '3', '/', 'a', 'm', 'e', 'n', 'd', 'm', 'e', 'n', 't', '/'] + spec_u32_digits(
        congress as nat,
    ) + seq!['/'] + spec_amendment_type_code(amendment_type) + seq!['/'] + spec_u32_digits(
        amendment_number as nat,
    )
}

/// Render the path that scopes one amendment.
pub(crate) fn amendment_base_path(
    congress: u32,
    amendment_type: &AmendmentType,
    amendment_number: u32,
) -> (r: String)
    ensures
        r@ == spec_amendment_base_path(congress, *amendment_type, amendment_number),
{
    proof {
        reveal_strlit("/v3/amendment/");
        assert("/v3/amendment/"@ =~= seq![
            '/',
            'v',
            '3',
            '/',
            'a',
            'm',
            'e',
            'n',
            'd',
            'm',
            'e',
            'n',
            't',
            '/',
        ]);
    }
    let mut path = String::from_str("/v3/amendment/");
    path.append(u32_to_string(congress).as_str());
    path.push('/');
    path.append(amendment_type.as_str());
    path.push('/');
    path.append(u32_to_string(amendment_number).as_str());
    proof {
        assert(path@ =~= spec_amendment_base_path(congress, *amendment_type, amendment_number));
    }
    path
}

/// Addresses one amendment and opens its sub-resource listings.
#[derive(Clone, Copy, Debug, PartialEq, Eq)]
pub struct AmendmentHandler {
    pub congress: u32,
    pub amendment_type: AmendmentType,
    pub amendment_number: u32,
    pub params: Parameters,
}

impl AmendmentHandler {
    pub fn new(congress: u32, amendment_type: AmendmentType, amendment_number: u32) -> (r:
        AmendmentHandler)
        ensures
            r == (AmendmentHandler {
                congress,
                amendment_type,
                amendment_number,
                params: Parameters::spec_default(),
            }),
    {
        AmendmentHandler {
            congress,
            amendment_type,
            amendment_number,
            params: Parameters::default(),
        }
    }

    /// The request for the amendment itself.
    pub fn request(&self) -> (r: PageRequest)
        ensures
            r.path@ == spec_amendment_base_path(
                self.congress,
                self.amendment_type,
                self.amendment_number,
            ),
            r.parameters == self.params,
    {
        PageRequest {
            path: amendment_base_path(
                self.congress,
                &self.amendment_type,
                self.amendment_number,
            ),
            parameters: self.params,
        }
    }

    pub fn actions(&self) -> (r: ActionsHandler)
        ensures
            r == ActionsHandler::spec_new(*self),
    {
        ActionsHandler::new(self)
    }

    pub fn cosponsors(&self) -> (r: CosponsorsHandler)
        ensures
            r == CosponsorsHandler::spec_new(*self),
    {
        CosponsorsHandler::new(self)
    }

    pub fn amendments(&self) -> (r: AmendmentsHandler)
        ensures
            r == AmendmentsHandler::spec_new(*self),
    {
        AmendmentsHandler::new(self)
    }
}

} // verus!
