//! The error taxonomy: store failures are fatal and propagated verbatim; an
//! unauthorized withdrawal, a foreign contract name, and an unknown prior
//! version are each reported as their own typed error.

use vstd::prelude::*;

verus! {

/// A failure of the underlying store: a slot that should hold a value does
/// not. Always fatal; never retried.
#[derive(Clone, Debug, PartialEq, Eq)]
pub enum StdError {
    NotFound { key: String },
}

/// Mathematical view of a `StdError`.
#[verifier::ext_equal]
pub ghost enum StdErrorV {
    NotFound { key: Seq<char> },
}

impl View for StdError {
    type V = StdErrorV;

    open spec fn view(&self) -> StdErrorV {
        match self {
            StdError::NotFound { key } => StdErrorV::NotFound { key: key@ },
        }
    }
}

/// The store error reported when the composite state slot is missing.
pub open spec fn spec_not_found_state() -> StdErrorV {
    StdErrorV::NotFound { key: "state"@ }
}

/// The store error reported when the owner slot is missing.
pub open spec fn spec_not_found_owner() -> StdErrorV {
    StdErrorV::NotFound { key: "owner"@ }
}

/// The store error reported when the contract metadata slot is missing.
pub open spec fn spec_not_found_contract_info() -> StdErrorV {
    StdErrorV::NotFound { key: "contract_info"@ }
}

/// The store error reported when the legacy counter slot is missing.
pub open spec fn spec_not_found_counter() -> StdErrorV {
    StdErrorV::NotFound { key: "counter"@ }
}

/// The store error reported when the legacy threshold slot is missing.
pub open spec fn spec_not_found_minimal_donation() -> StdErrorV {
    StdErrorV::NotFound { key: "minimal_donation"@ }
}

impl StdError {
    /// The error for a read of slot `key` that found nothing.
    pub fn not_found(key: String) -> (e: StdError)
        ensures
            e@ == (StdErrorV::NotFound { key: key@ }),
    {
        StdError::NotFound { key }
    }
}

/// Every failure an operation of this component can report.
#[derive(Clone, Debug, PartialEq, Eq)]
pub enum ContractError {
    /// An underlying store failure, propagated verbatim.
    Std(StdError),
    /// A withdrawal attempted by an identity other than the recorded owner;
    /// carries the expected owner identity.
    Unauthorized { owner: String },
    /// Migration invoked against state belonging to a differently-named
    /// contract; carries the recorded name.
    InvalidName(String),
    /// Migration invoked from an unrecognized prior version; carries the
    /// recorded version.
    InvalidVersion(String),
}

/// Mathematical view of a `ContractError`.
#[verifier::ext_equal]
pub ghost enum ContractErrorV {
    Std(StdErrorV),
    Unauthorized { owner: Seq<char> },
    InvalidName(Seq<char>),
    InvalidVersion(Seq<char>),
}

impl View for ContractError {
    type V = ContractErrorV;

    open spec fn view(&self) -> ContractErrorV {
        match self {
            ContractError::Std(e) => ContractErrorV::Std(e@),
            ContractError::Unauthorized { owner } => ContractErrorV::Unauthorized { owner: owner@ },
            ContractError::InvalidName(name) => ContractErrorV::InvalidName(name@),
            ContractError::InvalidVersion(version) => ContractErrorV::InvalidVersion(version@),
        }
    }
}

/// The human-readable description of an error, as the host logs it.
pub open spec fn spec_message(e: ContractErrorV) -> Seq<char> {
    match e {
        ContractErrorV::Std(StdErrorV::NotFound { key }) => key + " not found"@,
        ContractErrorV::Unauthorized { owner } => "Unauthorized - only "@ + owner + " can it"@,
        ContractErrorV::InvalidName(name) => "Migration invalid contract: "@ + name,
        ContractErrorV::InvalidVersion(version) => "Migration from unsupported version: "@
            + version,
    }
}

impl ContractError {
    /// Renders the error for logging.
    pub fn message(&self) -> (s: String)
        ensures
            s@ == spec_message(self@),
    {
        match self {
            ContractError::Std(StdError::NotFound { key }) => {
                let mut s = key.clone();
                s.append(" not found");
                s
            },
            ContractError::Unauthorized { owner } => {
                let mut s = "Unauthorized - only ".to_owned();
                s.append(owner.as_str());
                s.append(" can it");
                s
            },
            ContractError::InvalidName(name) => {
                let mut s = "Migration invalid contract: ".to_owned();
                s.append(name.as_str());
                s
            },
            ContractError::InvalidVersion(version) => {
                let mut s = "Migration from unsupported version: ".to_owned();
                s.append(version.as_str());
                s
            },
        }
    }
}

} // verus!
