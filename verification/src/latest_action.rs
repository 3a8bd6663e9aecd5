//! The most recent action recorded on a bill or amendment.

use vstd::prelude::*;
use crate::datetime::{Date, Time};

verus! {

#[derive(Clone, Debug, PartialEq, Eq)]
pub struct LatestAction {
    pub action_date: Date,
    pub action_time: Option<Time>,
    pub text: String,
}

} // verus!
