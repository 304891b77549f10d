use counting_contract::contract::u64_to_decimal;
use counting_contract::error::{ContractError, StdError};
use counting_contract::msg::{ExecMsg, InstantiateMsg, QueryMsg};
use counting_contract::response::BankSend;
use counting_contract::state::{Coin, ContractVersion, State, Store};

fn atom(amount: u128) -> Coin {
    Coin {
        amount,
        denom: "atom".to_string(),
    }
}

fn fresh_store(owner: &str, threshold: Coin) -> Store {
    let mut store = Store::new();
    counting_contract::instantiate(
        &mut store,
        &owner.to_string(),
        InstantiateMsg {
            minimal_donation: threshold,
        },
    )
    .unwrap();
    store
}

fn donate(store: &mut Store, sender: &str, funds: Vec<Coin>) {
    counting_contract::execute(
        store,
        &sender.to_string(),
        &funds,
        &vec![],
        ExecMsg::Donate {},
    )
    .unwrap();
}

fn value_of(store: &Store) -> u64 {
    counting_contract::query(store, QueryMsg::Value {})
        .unwrap()
        .value
}

#[test]
fn counter_counts_exactly_the_qualifying_donations() {
    let mut store = fresh_store("owner", atom(10));

    donate(&mut store, "a", vec![]); // no funds: no count
    donate(&mut store, "b", vec![atom(10)]); // at the threshold: counts
    donate(&mut store, "c", vec![atom(9)]); // below: no count
    donate(&mut store, "d", vec![atom(25)]); // above: counts
    donate(
        &mut store,
        "e",
        vec![Coin {
            amount: 100,
            denom: "osmo".to_string(),
        }],
    ); // wrong denomination: no count
    donate(&mut store, "f", vec![atom(3), atom(12), atom(1)]); // one coin qualifies: counts once
    donate(&mut store, "g", vec![atom(u128::MAX)]); // the largest amount: counts

    assert_eq!(value_of(&store), 4);
}

#[test]
fn coins_do_not_combine_to_reach_the_threshold() {
    // The threshold test is against a single coin: two coins of the right
    // denomination that each miss the threshold do not add up.
    let mut store = fresh_store("owner", atom(10));

    donate(&mut store, "a", vec![atom(5), atom(5)]);

    assert_eq!(value_of(&store), 0);
}

#[test]
fn threshold_never_changes() {
    let mut store = fresh_store("owner", atom(10));

    donate(&mut store, "a", vec![atom(10)]);
    donate(&mut store, "b", vec![atom(2)]);

    assert_eq!(store.state.unwrap().minimal_donation, atom(10));
}

#[test]
fn donate_reports_action_sender_and_counter() {
    let mut store = fresh_store("owner", atom(10));

    let resp = counting_contract::execute(
        &mut store,
        &"alice".to_string(),
        &vec![atom(10)],
        &vec![],
        ExecMsg::Donate {},
    )
    .unwrap();

    assert!(resp.messages.is_empty());
    assert_eq!(resp.attributes.len(), 3);
    assert_eq!(resp.attributes[0].key, "action");
    assert_eq!(resp.attributes[0].value, "donate");
    assert_eq!(resp.attributes[1].key, "sender");
    assert_eq!(resp.attributes[1].value, "alice");
    assert_eq!(resp.attributes[2].key, "counter");
    assert_eq!(resp.attributes[2].value, "1");
}

#[test]
fn decimal_rendering_is_exact() {
    assert_eq!(u64_to_decimal(0), "0");
    assert_eq!(u64_to_decimal(7), "7");
    assert_eq!(u64_to_decimal(10), "10");
    assert_eq!(u64_to_decimal(305), "305");
    assert_eq!(u64_to_decimal(12345678901234567890), "12345678901234567890");
    assert_eq!(u64_to_decimal(u64::MAX), "18446744073709551615");
}

#[test]
fn withdraw_never_touches_the_counter() {
    let mut store = fresh_store("owner", atom(10));
    donate(&mut store, "a", vec![atom(10)]);
    let before = store.clone();

    let resp = counting_contract::execute(
        &mut store,
        &"owner".to_string(),
        &vec![],
        &vec![atom(10), atom(32)],
        ExecMsg::Withdraw {},
    )
    .unwrap();

    assert_eq!(store, before);
    assert_eq!(value_of(&store), 1);
    assert_eq!(
        resp.messages,
        vec![BankSend {
            to_address: "owner".to_string(),
            amount: vec![atom(10), atom(32)],
        }]
    );
    assert_eq!(resp.attributes.len(), 2);
    assert_eq!(resp.attributes[0].key, "action");
    assert_eq!(resp.attributes[0].value, "withdraw");
    assert_eq!(resp.attributes[1].key, "sender");
    assert_eq!(resp.attributes[1].value, "owner");
}

#[test]
fn unauthorized_withdraw_emits_no_effect_and_changes_nothing() {
    let mut store = fresh_store("owner", atom(10));
    donate(&mut store, "a", vec![atom(10)]);
    let before = store.clone();

    let err = counting_contract::execute(
        &mut store,
        &"mallory".to_string(),
        &vec![],
        &vec![atom(10)],
        ExecMsg::Withdraw {},
    )
    .unwrap_err();

    assert_eq!(
        err,
        ContractError::Unauthorized {
            owner: "owner".to_string()
        }
    );
    assert_eq!(store, before);
}

#[test]
fn query_fails_without_state() {
    let store = Store::new();

    let err = counting_contract::query(&store, QueryMsg::Value {}).unwrap_err();

    assert_eq!(
        err,
        StdError::NotFound {
            key: "state".to_string()
        }
    );
}

#[test]
fn donate_fails_without_state() {
    let mut store = Store::new();

    let err = counting_contract::execute(
        &mut store,
        &"a".to_string(),
        &vec![atom(10)],
        &vec![],
        ExecMsg::Donate {},
    )
    .unwrap_err();

    assert_eq!(
        err,
        ContractError::Std(StdError::NotFound {
            key: "state".to_string()
        })
    );
}

#[test]
fn withdraw_fails_without_owner() {
    let mut store = Store::new();

    let err = counting_contract::execute(
        &mut store,
        &"a".to_string(),
        &vec![],
        &vec![],
        ExecMsg::Withdraw {},
    )
    .unwrap_err();

    assert_eq!(
        err,
        ContractError::Std(StdError::NotFound {
            key: "owner".to_string()
        })
    );
}

fn legacy_store(contract: &str, version: &str) -> Store {
    Store {
        version_info: Some(ContractVersion {
            contract: contract.to_string(),
            version: version.to_string(),
        }),
        state: None,
        owner: Some("owner".to_string()),
        legacy_counter: Some(1),
        legacy_minimal_donation: Some(atom(10)),
    }
}

#[test]
fn migration_rewrites_the_legacy_slots_exactly() {
    let mut store = legacy_store("counting-contract", "0.1.0");

    let resp = counting_contract::migrate(&mut store).unwrap();

    assert!(resp.messages.is_empty());
    assert!(resp.attributes.is_empty());
    assert_eq!(
        store.state,
        Some(State {
            counter: 1,
            minimal_donation: atom(10),
        })
    );
    assert_eq!(
        store.version_info,
        Some(ContractVersion {
            contract: "counting-contract".to_string(),
            version: "0.2.0".to_string(),
        })
    );
    // The legacy slots are left in place; they are simply no longer read.
    assert_eq!(store.legacy_counter, Some(1));
    assert_eq!(store.legacy_minimal_donation, Some(atom(10)));
    assert_eq!(store.owner, Some("owner".to_string()));
}

#[test]
fn migration_twice_is_harmless() {
    let mut store = legacy_store("counting-contract", "0.1.0");

    counting_contract::migrate(&mut store).unwrap();
    let migrated = store.clone();

    counting_contract::migrate(&mut store).unwrap();

    assert_eq!(store, migrated);
}

#[test]
fn migration_of_a_current_deployment_is_a_no_op() {
    let mut store = fresh_store("owner", atom(10));
    let before = store.clone();

    counting_contract::migrate(&mut store).unwrap();
    assert_eq!(store, before);

    counting_contract::migrate(&mut store).unwrap();
    assert_eq!(store, before);
}

#[test]
fn migration_refuses_a_foreign_name() {
    let mut store = legacy_store("other-contract", "0.1.0");
    let before = store.clone();

    let err = counting_contract::migrate(&mut store).unwrap_err();

    assert_eq!(
        err,
        ContractError::InvalidName("other-contract".to_string())
    );
    assert_eq!(store, before);
}

#[test]
fn migration_refuses_an_unknown_version() {
    let mut store = legacy_store("counting-contract", "0.0.7");
    let before = store.clone();

    let err = counting_contract::migrate(&mut store).unwrap_err();

    assert_eq!(
        err,
        ContractError::InvalidVersion("0.0.7".to_string())
    );
    assert_eq!(store, before);
}

#[test]
fn migration_fails_on_a_missing_legacy_slot() {
    let mut store = legacy_store("counting-contract", "0.1.0");
    store.legacy_counter = None;
    let before = store.clone();
    let err = counting_contract::migrate(&mut store).unwrap_err();
    assert_eq!(
        err,
        ContractError::Std(StdError::NotFound {
            key: "counter".to_string()
        })
    );
    assert_eq!(store, before);

    let mut store = legacy_store("counting-contract", "0.1.0");
    store.legacy_minimal_donation = None;
    let before = store.clone();
    let err = counting_contract::migrate(&mut store).unwrap_err();
    assert_eq!(
        err,
        ContractError::Std(StdError::NotFound {
            key: "minimal_donation".to_string()
        })
    );
    assert_eq!(store, before);
}

#[test]
fn migration_fails_without_metadata() {
    let mut store = Store::new();

    let err = counting_contract::migrate(&mut store).unwrap_err();

    assert_eq!(
        err,
        ContractError::Std(StdError::NotFound {
            key: "contract_info".to_string()
        })
    );
}

#[test]
fn end_to_end_scenario() {
    // Instantiate with threshold (10, "atom"); a fund-less donation leaves the
    // value at 0; a donation of (10, "atom") raises it to 1; a second donor's
    // (5, "atom") stays below the threshold and leaves it at 1; the owner's
    // withdrawal sweeps everything ever sent — 15 "atom" — to the owner,
    // empties the component's balance, and leaves the value at 1.
    let owner = "owner".to_string();
    let mut store = fresh_store(&owner, atom(10));
    let mut contract_balance: Vec<Coin> = vec![];
    let mut owner_balance: Vec<Coin> = vec![];

    donate(&mut store, "donor1", vec![]);
    assert_eq!(value_of(&store), 0);

    contract_balance = vec![atom(contract_balance.first().map_or(0, |c| c.amount) + 10)];
    donate(&mut store, "donor1", vec![atom(10)]);
    assert_eq!(value_of(&store), 1);

    contract_balance = vec![atom(contract_balance.first().map_or(0, |c| c.amount) + 5)];
    donate(&mut store, "donor2", vec![atom(5)]);
    assert_eq!(value_of(&store), 1);

    let resp = counting_contract::execute(
        &mut store,
        &owner,
        &vec![],
        &contract_balance,
        ExecMsg::Withdraw {},
    )
    .unwrap();

    for msg in &resp.messages {
        assert_eq!(msg.to_address, owner);
        assert_eq!(msg.amount, contract_balance);
        owner_balance = msg.amount.clone();
    }
    let contract_balance: Vec<Coin> = vec![];

    assert_eq!(owner_balance, vec![atom(15)]);
    assert_eq!(contract_balance, vec![]);
    assert_eq!(value_of(&store), 1);
}

#[test]
fn error_messages_are_exact() {
    assert_eq!(
        ContractError::Std(StdError::NotFound {
            key: "state".to_string()
        })
        .message(),
        "state not found"
    );
    assert_eq!(
        ContractError::Unauthorized {
            owner: "owner".to_string()
        }
        .message(),
        "Unauthorized - only owner can it"
    );
    assert_eq!(
        ContractError::InvalidName("other".to_string()).message(),
        "Migration invalid contract: other"
    );
    assert_eq!(
        ContractError::InvalidVersion("0.0.7".to_string()).message(),
        "Migration from unsupported version: 0.0.7"
    );
}

#[test]
fn instantiate_returns_an_empty_response() {
    let mut store = Store::new();

    let resp = counting_contract::instantiate(
        &mut store,
        &"owner".to_string(),
        InstantiateMsg {
            minimal_donation: atom(10),
        },
    )
    .unwrap();

    assert!(resp.messages.is_empty());
    assert!(resp.attributes.is_empty());
    assert_eq!(store.owner, Some("owner".to_string()));
    assert_eq!(
        store.version_info,
        Some(ContractVersion {
            contract: "counting-contract".to_string(),
            version: "0.2.0".to_string(),
        })
    );
}
