//! The actions recorded on one amendment.

use vstd::prelude::*;
use super::{amendment_base_path, spec_amendment_base_path, AmendmentHandler};
use crate::chamber::Chamber;
use crate::datetime::{Date, DateTime};
use crate::page::{PagedResponse, Pagination};
use crate::pagination::link_of;
use crate::request::PageRequest;

verus! {

#[derive(Clone, Debug, PartialEq, Eq)]
pub struct RecordedVote {
    pub chamber: Chamber,
    pub congress: u32,
    pub date: DateTime,
    pub roll_number: u32,
    pub session_number: u32,
    pub url: String,
}

#[derive(Clone, Debug, PartialEq, Eq)]
pub struct SourceSystem {
    pub code: u32,
    pub name: String,
}

#[derive(Clone, Copy, Debug, PartialEq, Eq, Structural)]
pub enum ActionType {
    Floor,
}

#[derive(Clone, Debug, PartialEq, Eq)]
pub struct Action {
    pub action_date: Date,
    pub recorded_votes: Option<Vec<RecordedVote>>,
    pub source_system: Option<SourceSystem>,
    pub text: Option<String>,
    pub action_type: Option<ActionType>,
}

#[derive(Clone, Debug, PartialEq, Eq)]
pub struct ActionsResponse {
    pub actions: Vec<Action>,
    pub pagination: Pagination,
}

impl PagedResponse for ActionsResponse {
    open spec fn prev_link(&self) -> Option<Seq<char>> {
        link_of(self.pagination.prev)
    }

    open spec fn next_link(&self) -> Option<Seq<char>> {
        link_of(self.pagination.next)
    }

    fn previous(&self) -> (r: Option<String>) {
        match &self.pagination.prev {
            Some(s) => Some(s.clone()),
            None => None,
        }
    }

    fn next(&self) -> (r: Option<String>) {
        match &self.pagination.next {
            Some(s) => Some(s.clone()),
            None => None,
        }
    }
}

/// The listing's path under its amendment.
pub open spec fn spec_actions_path(h: AmendmentHandler) -> Seq<char> {
    spec_amendment_base_path(h.congress, h.amendment_type, h.amendment_number) + seq![
        '/',
        'a',
        'c',
        't',
        'i',
        'o',
        'n',
        's',
    ]
}

/// Builds the request for an amendment's action listing.
#[derive(Clone, Copy, Debug, PartialEq, Eq)]
pub struct ActionsHandler {
    pub handler: AmendmentHandler,
}

impl ActionsHandler {
    pub open spec fn spec_new(h: AmendmentHandler) -> ActionsHandler {
        ActionsHandler { handler: h }
    }

    pub(super) fn new(handler: &AmendmentHandler) -> (r: Self)
        ensures
            r == Self::spec_new(*handler),
    {
        ActionsHandler { handler: *handler }
    }

    /// The request this handler has accumulated; the parameters are the
    /// parent amendment's.
    pub fn request(&self) -> (r: PageRequest)
        ensures
            r.path@ == spec_actions_path(self.handler),
            r.parameters == self.handler.params,
    {
        let mut path = amendment_base_path(
            self.handler.congress,
            &self.handler.amendment_type,
            self.handler.amendment_number,
        );
        proof {
            reveal_strlit("/actions");
            assert("/actions"@ =~= seq!['/', 'a', 'c', 't', 'i', 'o', 'n', 's']);
        }
        path.append("/actions");
        proof {
            assert(path@ =~= spec_actions_path(self.handler));
        }
        PageRequest { path, parameters: self.handler.params }
    }
}

} // verus!
