//! A small stateful ledger component: a counter that advances only when an
//! incoming transfer meets a minimum-amount threshold, an owner who may sweep
//! the accumulated balance out, and a migration engine that upgrades the
//! persisted state of an older deployment in place.
//!
//! The component is written against an abstract store: a small set of named,
//! durable slots that the host provides. The host decodes requests, hands the
//! engine plain values (the caller identity, the attached funds, the current
//! balance), and executes the effects the engine returns.

use vstd::prelude::*;

pub mod contract;
pub mod error;
pub mod msg;
pub mod response;
pub mod state;

verus! {

use crate::error::{ContractError, StdError};
use crate::msg::{ExecMsg, InstantiateMsg, QueryMsg, ValuerResp};
use crate::response::Response;
use crate::state::{Coin, Store};

/// Creates a fresh deployment: records the current contract metadata, then
/// writes the initial state and the owner.
pub fn instantiate(store: &mut Store, sender: &String, msg: InstantiateMsg) -> (r: Result<
    Response,
    StdError,
>)
    ensures
        final(store)@.version_info == Some(
            crate::state::ContractVersionV {
                contract: crate::contract::spec_contract_name(),
                version: crate::contract::spec_contract_version(),
            },
        ),
        final(store)@.state == Some(
            crate::state::StateV { counter: 0, minimal_donation: msg.minimal_donation@ },
        ),
        final(store)@.owner == Some(sender@),
        final(store)@.legacy_counter == old(store)@.legacy_counter,
        final(store)@.legacy_minimal_donation == old(store)@.legacy_minimal_donation,
        r matches Ok(resp) && resp@ == crate::response::ResponseV::empty(),
{
    store.version_info = Some(
        crate::state::ContractVersion {
            contract: crate::contract::contract_name(),
            version: crate::contract::contract_version(),
        },
    );
    contract::instantiate(store, sender, msg)
}

/// Answers a query request against the current state of the store.
pub fn query(store: &Store, msg: QueryMsg) -> (r: Result<ValuerResp, StdError>)
    ensures
        match msg {
            QueryMsg::Value {  } => match store@.state {
                Some(st) => r == Ok::<ValuerResp, StdError>(ValuerResp { value: st.counter }),
                None => r matches Err(e) && e@ == crate::error::spec_not_found_state(),
            },
        },
{
    match msg {
        QueryMsg::Value {  } => contract::value(store),
    }
}

/// Dispatches an execute request to the operation it names. The host supplies
/// the attached funds of the call and the component's current balance.
pub fn execute(
    store: &mut Store,
    sender: &String,
    funds: &Vec<Coin>,
    balance: &Vec<Coin>,
    msg: ExecMsg,
) -> (r: Result<Response, ContractError>)
    requires
        msg is Donate ==> (old(store)@.state matches Some(st) ==> st.counter < u64::MAX),
    ensures
        match msg {
            ExecMsg::Donate {  } => crate::contract::donate_post(
                old(store)@,
                final(store)@,
                sender@,
                crate::state::coins_view(funds@),
                r,
            ),
            ExecMsg::Withdraw {  } => final(store)@ == old(store)@
                && crate::contract::withdraw_post(
                old(store)@,
                sender@,
                crate::state::coins_view(balance@),
                r,
            ),
        },
{
    match msg {
        ExecMsg::Donate {  } => contract::donate(store, sender, funds),
        ExecMsg::Withdraw {  } => contract::withdraw(store, sender, balance),
    }
}

/// Upgrades the persisted state of an older deployment to the current schema.
pub fn migrate(store: &mut Store) -> (r: Result<Response, ContractError>)
    ensures
        final(store)@ == crate::contract::spec_migrate_store(old(store)@),
        crate::contract::migrate_result_post(old(store)@, r),
{
    contract::migrate(store)
}

} // verus!
