//! The typed requests the host hands to the engine, and the typed response to
//! a value query. The wire encoding of these messages is owned by the host.

use vstd::prelude::*;

verus! {

use crate::state::Coin;

/// The one-time creation request: the donation threshold to enforce.
#[derive(Clone, Debug, PartialEq, Eq)]
pub struct InstantiateMsg {
    pub minimal_donation: Coin,
}

/// The query requests the component answers.
#[derive(Clone, Debug, PartialEq, Eq)]
pub enum QueryMsg {
    Value {},
}

/// The state-changing requests the component accepts.
#[derive(Clone, Debug, PartialEq, Eq)]
pub enum ExecMsg {
    Donate {},
    Withdraw {},
}

/// The response to a `Value` query: the current counter.
#[derive(Clone, Copy, Debug, PartialEq, Eq, Structural)]
pub struct ValuerResp {
    pub value: u64,
}

} // verus!
