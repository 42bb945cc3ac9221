use vstd::prelude::*;
use crate::state::State;

verus! {

/// The message that sets the contract up; its sender becomes the owner.
#[derive(Clone, Debug, PartialEq, Eq)]
pub struct InitMsg {}

/// The state-changing operations.
#[derive(Clone, Debug, PartialEq, Eq)]
pub enum HandleMsg {
    /// Registers `nickname` for the sender with two identity handles.
    Believe { nickname: String, telegram: String, github: String },
    /// The owner endorses the record under `nickname`.
    Bless { nickname: String },
    /// The owner withdraws the endorsement of the record under `nickname`.
    Unbless { nickname: String },
}

/// The read-only operations.
#[derive(Clone, Debug, PartialEq, Eq)]
pub enum QueryMsg {
    /// The record under `nickname`.
    ResolveEvangelist { nickname: String },
    /// The configuration.
    Config {},
}

/// A record as a reader sees it.
#[derive(Clone, Debug, PartialEq, Eq)]
pub struct ResolveEvangelistResponse {
    pub cyber: String,
    pub nickname: String,
    pub telegram: String,
    pub github: String,
    pub accepted: bool,
}

/// The answer to a `QueryMsg`, one variant for each query.
#[derive(Clone, Debug, PartialEq, Eq)]
pub enum QueryResponse {
    ResolveEvangelist(ResolveEvangelistResponse),
    Config(State),
}

} // verus!
