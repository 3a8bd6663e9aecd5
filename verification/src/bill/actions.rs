//! The actions recorded on one bill.

use vstd::prelude::*;
use super::{bill_base_path, spec_bill_base_path, BillHandler};
use crate::datetime::Date;
use crate::pagination::{PagedResponse, Pagination};
use crate::parameters::{HasParameters, PageParameters, Parameters, Sealed};
use crate::request::PageRequest;

verus! {

#[derive(Clone, Debug, PartialEq, Eq)]
pub struct SourceSystem {
    pub code: Option<u32>,
    pub name: String,
}

#[derive(Clone, Copy, Debug, PartialEq, Eq, Structural)]
pub enum ActionType {
    BecameLaw,
    President,
    Committee,
    IntroReferral,
    Calendars,
    Floor,
}

#[derive(Clone, Debug, PartialEq, Eq)]
pub struct Action {
    pub action_code: Option<String>,
    pub action_date: Date,
    pub source_system: SourceSystem,
    pub text: String,
    pub action_type: ActionType,
}

#[derive(Clone, Debug, PartialEq, Eq)]
pub struct ActionsResponse {
    pub actions: Vec<Action>,
    pub pagination: Pagination,
}

impl PagedResponse<Action> for ActionsResponse {
    open spec fn spec_items(&self) -> Seq<Action> {
        self.actions@
    }

    open spec fn spec_pagination(&self) -> Pagination {
        self.pagination
    }

    fn get_items(&self) -> (r: &Vec<Action>) {
        &self.actions
    }

    fn get_pagination(&self) -> (r: &Pagination) {
        &self.pagination
    }
}

/// The listing's path under its bill.
pub open spec fn spec_actions_path(h: BillHandler) -> Seq<char> {
    spec_bill_base_path(h.congress, h.bill_type, h.bill_number) + seq![
        '/',
        'a',
        'c',
        't',
        'i',
        'o',
        'n',
        's',
    ]
}

/// Builds the request for a bill's action listing.
#[derive(Clone, Copy, Debug, PartialEq, Eq)]
pub struct ActionsHandler {
    pub handler: BillHandler,
    pub parameters: Parameters,
}

impl ActionsHandler {
    pub open spec fn spec_new(h: BillHandler) -> ActionsHandler {
        ActionsHandler { handler: h, parameters: Parameters::spec_default() }
    }

    pub(super) fn new(handler: &BillHandler) -> (r: Self)
        ensures
            r == Self::spec_new(*handler),
    {
        ActionsHandler { handler: *handler, parameters: Parameters::default() }
    }

    /// The request this handler has accumulated.
    pub fn request(&self) -> (r: PageRequest)
        ensures
            r.path@ == spec_actions_path(self.handler),
            r.parameters == self.parameters,
    {
        let mut path = bill_base_path(
            self.handler.congress,
            &self.handler.bill_type,
            self.handler.bill_number,
        );
        proof {
            reveal_strlit("/actions");
            assert("/actions"@ =~= seq!['/', 'a', 'c', 't', 'i', 'o', 'n', 's']);
        }
        path.append("/actions");
        proof {
            assert(path@ =~= spec_actions_path(self.handler));
        }
        PageRequest { path, parameters: self.parameters }
    }
}

impl Sealed for ActionsHandler {

}

impl HasParameters for ActionsHandler {
    open spec fn params(&self) -> Parameters {
        self.parameters
    }

    open spec fn with_params(self, p: Parameters) -> Self {
        ActionsHandler { parameters: p, ..self }
    }

    fn get_parameters(&self) -> (r: Parameters) {
        self.parameters
    }

    fn replace_parameters(self, p: Parameters) -> (r: Self) {
        ActionsHandler { parameters: p, ..self }
    }
}

impl PageParameters for ActionsHandler {

}

} // verus!
