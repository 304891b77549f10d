//! The state model: the coin and state records the component persists, the
//! legacy (pre-migration) layout, and the store of named slots that the host
//! keeps durable for the component.

use vstd::prelude::*;

verus! {

/// A quantity of a single asset denomination.
#[derive(Clone, Debug, PartialEq, Eq)]
pub struct Coin {
    pub amount: u128,
    pub denom: String,
}

/// Mathematical view of a `Coin`.
#[verifier::ext_equal]
pub ghost struct CoinV {
    pub amount: u128,
    pub denom: Seq<char>,
}

impl View for Coin {
    type V = CoinV;

    open spec fn view(&self) -> CoinV {
        CoinV { amount: self.amount, denom: self.denom@ }
    }
}

/// The view of a list of coins, coin by coin.
pub open spec fn coins_view(s: Seq<Coin>) -> Seq<CoinV> {
    s.map_values(|c: Coin| c@)
}

/// The current schema of the contract state: the number of qualifying
/// donations received, and the threshold a single incoming payment must meet
/// to count.
#[derive(Clone, Debug, PartialEq, Eq)]
pub struct State {
    pub counter: u64,
    pub minimal_donation: Coin,
}

/// Mathematical view of a `State`.
#[verifier::ext_equal]
pub ghost struct StateV {
    pub counter: u64,
    pub minimal_donation: CoinV,
}

impl View for State {
    type V = StateV;

    open spec fn view(&self) -> StateV {
        StateV { counter: self.counter, minimal_donation: self.minimal_donation@ }
    }
}

/// The contract metadata recorded alongside the state; the migration engine
/// reads it to decide which transformation, if any, to apply.
#[derive(Clone, Debug, PartialEq, Eq)]
pub struct ContractVersion {
    pub contract: String,
    pub version: String,
}

/// Mathematical view of a `ContractVersion`.
#[verifier::ext_equal]
pub ghost struct ContractVersionV {
    pub contract: Seq<char>,
    pub version: Seq<char>,
}

impl View for ContractVersion {
    type V = ContractVersionV;

    open spec fn view(&self) -> ContractVersionV {
        ContractVersionV { contract: self.contract@, version: self.version@ }
    }
}

/// The persisted slots of one deployment. `None` in a slot means the store
/// holds no value under that name; reading it then fails. The two legacy
/// slots are the physical layout of schema version "0.1.0": the same data as
/// `state`, stored as two independent slots. After migration they are left in
/// place but no longer read.
#[derive(Clone, Debug, PartialEq, Eq)]
pub struct Store {
    pub version_info: Option<ContractVersion>,
    pub state: Option<State>,
    pub owner: Option<String>,
    pub legacy_counter: Option<u64>,
    pub legacy_minimal_donation: Option<Coin>,
}

/// Mathematical view of a `Store`.
#[verifier::ext_equal]
pub ghost struct StoreV {
    pub version_info: Option<ContractVersionV>,
    pub state: Option<StateV>,
    pub owner: Option<Seq<char>>,
    pub legacy_counter: Option<u64>,
    pub legacy_minimal_donation: Option<CoinV>,
}

impl View for Store {
    type V = StoreV;

    open spec fn view(&self) -> StoreV {
        StoreV {
            version_info: match self.version_info {
                Some(ref v) => Some(v@),
                None => None,
            },
            state: match self.state {
                Some(ref s) => Some(s@),
                None => None,
            },
            owner: match self.owner {
                Some(ref o) => Some(o@),
                None => None,
            },
            legacy_counter: self.legacy_counter,
            legacy_minimal_donation: match self.legacy_minimal_donation {
                Some(ref c) => Some(c@),
                None => None,
            },
        }
    }
}

impl Store {
    /// A store with every slot empty: what a deployment sees before its first
    /// instantiation.
    pub fn new() -> (s: Store)
        ensures
            s@.version_info is None,
            s@.state is None,
            s@.owner is None,
            s@.legacy_counter is None,
            s@.legacy_minimal_donation is None,
    {
        Store {
            version_info: None,
            state: None,
            owner: None,
            legacy_counter: None,
            legacy_minimal_donation: None,
        }
    }
}

} // verus!
