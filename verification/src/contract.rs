//! The transition engine and the migration engine: how state is created, how
//! it is mutated by the two guarded operations, and how the legacy on-disk
//! layout is detected and upgraded in place.

use vstd::prelude::*;

verus! {

use crate::error::{
    ContractError,
    ContractErrorV,
    StdError,
    spec_not_found_contract_info,
    spec_not_found_counter,
    spec_not_found_minimal_donation,
    spec_not_found_owner,
    spec_not_found_state,
};
use crate::msg::{InstantiateMsg, ValuerResp};
use crate::response::{AttributeV, BankSend, BankSendV, Response, ResponseV};
use crate::state::{Coin, CoinV, ContractVersion, ContractVersionV, State, StateV, Store, StoreV,
    coins_view};

// ---------------------------------------------------------------------------
// Contract metadata constants
// ---------------------------------------------------------------------------

/// The name this component records in its metadata; migration refuses state
/// recorded under any other name.
pub open spec fn spec_contract_name() -> Seq<char> {
    "counting-contract"@
}

/// The version of this code; migration from a deployment already at this
/// version is a no-op.
pub open spec fn spec_contract_version() -> Seq<char> {
    "0.2.0"@
}

/// The one prior version this component knows how to upgrade from.
pub open spec fn spec_legacy_version() -> Seq<char> {
    "0.1.0"@
}

/// The contract name, as a value.
pub fn contract_name() -> (s: String)
    ensures
        s@ == spec_contract_name(),
{
    "counting-contract".to_owned()
}

/// The current version, as a value.
pub fn contract_version() -> (s: String)
    ensures
        s@ == spec_contract_version(),
{
    "0.2.0".to_owned()
}

/// The legacy version, as a value.
pub fn legacy_version() -> (s: String)
    ensures
        s@ == spec_legacy_version(),
{
    "0.1.0".to_owned()
}

// ---------------------------------------------------------------------------
// Decimal rendering of the counter attribute
// ---------------------------------------------------------------------------

/// The decimal digit character for `d`.
pub open spec fn decimal_digit(d: nat) -> char
    recommends
        d < 10,
{
    if d == 0 {
        '0'
    } else if d == 1 {
        '1'
    } else if d == 2 {
        '2'
    } else if d == 3 {
        '3'
    } else if d == 4 {
        '4'
    } else if d == 5 {
        '5'
    } else if d == 6 {
        '6'
    } else if d == 7 {
        '7'
    } else if d == 8 {
        '8'
    } else {
        '9'
    }
}

/// The decimal rendering of `n`, most significant digit first, without
/// leading zeros (except for `n == 0` itself).
pub open spec fn spec_decimal(n: nat) -> Seq<char>
    decreases n,
{
    if n < 10 {
        seq![decimal_digit(n)]
    } else {
        spec_decimal(n / 10).push(decimal_digit(n % 10))
    }
}

/// The one-character string for the decimal digit `d`.
fn digit_str(d: u64) -> (s: &'static str)
    requires
        d < 10,
    ensures
        s@ == seq![decimal_digit(d as nat)],
{
    if d == 0 {
        proof {
            reveal_strlit("0");
            assert("0"@ =~= seq![decimal_digit(d as nat)]);
        }
        "0"
    } else if d == 1 {
        proof {
            reveal_strlit("1");
            assert("1"@ =~= seq![decimal_digit(d as nat)]);
        }
        "1"
    } else if d == 2 {
        proof {
            reveal_strlit("2");
            assert("2"@ =~= seq![decimal_digit(d as nat)]);
        }
        "2"
    } else if d == 3 {
        proof {
            reveal_strlit("3");
            assert("3"@ =~= seq![decimal_digit(d as nat)]);
        }
        "3"
    } else if d == 4 {
        proof {
            reveal_strlit("4");
            assert("4"@ =~= seq![decimal_digit(d as nat)]);
        }
        "4"
    } else if d == 5 {
        proof {
            reveal_strlit("5");
            assert("5"@ =~= seq![decimal_digit(d as nat)]);
        }
        "5"
    } else if d == 6 {
        proof {
            reveal_strlit("6");
            assert("6"@ =~= seq![decimal_digit(d as nat)]);
        }
        "6"
    } else if d == 7 {
        proof {
            reveal_strlit("7");
            assert("7"@ =~= seq![decimal_digit(d as nat)]);
        }
        "7"
    } else if d == 8 {
        proof {
            reveal_strlit("8");
            assert("8"@ =~= seq![decimal_digit(d as nat)]);
        }
        "8"
    } else {
        proof {
            reveal_strlit("9");
            assert("9"@ =~= seq![decimal_digit(d as nat)]);
        }
        "9"
    }
}

/// Renders `n` in decimal.
pub fn u64_to_decimal(n: u64) -> (s: String)
    ensures
        s@ == spec_decimal(n as nat),
    decreases n,
{
    let d = n % 10;
    if n < 10 {
        digit_str(d).to_owned()
    } else {
        proof {
            assert(n / 10 < n) by (nonlinear_arith)
                requires
                    n >= 10,
            ;
        }
        let mut s = u64_to_decimal(n / 10);
        s.append(digit_str(d));
        proof {
            assert(s@ =~= spec_decimal(n as nat));
        }
        s
    }
}

// ---------------------------------------------------------------------------
// The qualifying-donation rule
// ---------------------------------------------------------------------------

/// Whether a single coin meets the threshold: same denomination, and at least
/// the threshold amount.
pub open spec fn coin_qualifies(c: CoinV, threshold: CoinV) -> bool {
    c.denom == threshold.denom && c.amount >= threshold.amount
}

/// Whether the attached funds contain at least one qualifying coin. This is a
/// threshold test against a single coin, never a sum across coins.
pub open spec fn donation_qualifies(funds: Seq<CoinV>, threshold: CoinV) -> bool {
    exists|i: int| 0 <= i < funds.len() && coin_qualifies(funds[i], threshold)
}

/// The counter after one donation with the given funds.
pub open spec fn donate_counter(st: StateV, funds: Seq<CoinV>) -> u64
    recommends
        st.counter < u64::MAX,
{
    if donation_qualifies(funds, st.minimal_donation) {
        (st.counter + 1) as u64
    } else {
        st.counter
    }
}

/// The state after one donation: the counter advances exactly when the funds
/// qualify; the threshold never changes.
pub open spec fn spec_donate_state(st: StateV, funds: Seq<CoinV>) -> StateV {
    StateV { counter: donate_counter(st, funds), minimal_donation: st.minimal_donation }
}

/// The response a donation returns: no effects, and the action, the sender
/// and the resulting counter as attributes.
pub open spec fn donate_response_view(sender: Seq<char>, counter: u64) -> ResponseV {
    ResponseV {
        messages: Seq::empty(),
        attributes: seq![
            AttributeV { key: "action"@, value: "donate"@ },
            AttributeV { key: "sender"@, value: sender },
            AttributeV { key: "counter"@, value: spec_decimal(counter as nat) },
        ],
    }
}

/// Everything `donate` guarantees, relating the store before and after the
/// call to its result.
pub open spec fn donate_post(
    pre: StoreV,
    post: StoreV,
    sender: Seq<char>,
    funds: Seq<CoinV>,
    r: Result<Response, ContractError>,
) -> bool {
    &&& post.version_info == pre.version_info
    &&& post.owner == pre.owner
    &&& post.legacy_counter == pre.legacy_counter
    &&& post.legacy_minimal_donation == pre.legacy_minimal_donation
    &&& match pre.state {
        None => {
            &&& post == pre
            &&& r matches Err(e) && e@ == ContractErrorV::Std(spec_not_found_state())
        },
        Some(st) => {
            &&& post.state == Some(spec_donate_state(st, funds))
            &&& r matches Ok(resp) && resp@ == donate_response_view(
                sender,
                donate_counter(st, funds),
            )
        },
    }
}

// ---------------------------------------------------------------------------
// Transition engine
// ---------------------------------------------------------------------------

/// Writes the initial state and records the caller as owner. The metadata
/// slot is written by the deployment entry point, not here.
pub fn instantiate(store: &mut Store, sender: &String, msg: InstantiateMsg) -> (r: Result<
    Response,
    StdError,
>)
    ensures
        final(store)@.state == Some(
            StateV { counter: 0, minimal_donation: msg.minimal_donation@ },
        ),
        final(store)@.owner == Some(sender@),
        final(store)@.version_info == old(store)@.version_info,
        final(store)@.legacy_counter == old(store)@.legacy_counter,
        final(store)@.legacy_minimal_donation == old(store)@.legacy_minimal_donation,
        r matches Ok(resp) && resp@ == ResponseV::empty(),
{
    store.state = Some(State { counter: 0, minimal_donation: msg.minimal_donation });
    store.owner = Some(sender.clone());
    Ok(Response::new())
}

/// Reads the current counter. Fails exactly when the state slot is missing,
/// which cannot happen after a successful instantiation.
pub fn value(store: &Store) -> (r: Result<ValuerResp, StdError>)
    ensures
        match store@.state {
            Some(st) => r == Ok::<ValuerResp, StdError>(ValuerResp { value: st.counter }),
            None => r matches Err(e) && e@ == spec_not_found_state(),
        },
{
    match &store.state {
        Some(st) => Ok(ValuerResp { value: st.counter }),
        None => Err(StdError::not_found("state".to_owned())),
    }
}

/// One donation: if any attached coin meets the threshold, the counter
/// advances by exactly one and the new state is persisted; otherwise the
/// state is unchanged. The attached funds themselves are retained by the
/// component's balance at the host level; no effect is emitted here.
pub fn donate(store: &mut Store, sender: &String, funds: &Vec<Coin>) -> (r: Result<
    Response,
    ContractError,
>)
    requires
        old(store)@.state matches Some(st) ==> st.counter < u64::MAX,
    ensures
        donate_post(old(store)@, final(store)@, sender@, coins_view(funds@), r),
{
    let (counter, minimal_donation) = match &store.state {
        Some(st) => (st.counter, clone_coin(&st.minimal_donation)),
        None => {
            return Err(ContractError::Std(StdError::not_found("state".to_owned())));
        },
    };
    let ghost threshold = minimal_donation@;

    let mut qualifies = false;
    let mut i: usize = 0;
    while i < funds.len()
        invariant
            0 <= i <= funds.len(),
            threshold == minimal_donation@,
            qualifies == donation_qualifies(coins_view(funds@).take(i as int), threshold),
        decreases funds.len() - i,
    {
        let c = &funds[i];
        let hit = c.denom.eq(&minimal_donation.denom) && c.amount >= minimal_donation.amount;
        proof {
            let pre = coins_view(funds@).take(i as int);
            let post = coins_view(funds@).take(i as int + 1);
            assert(post[i as int] == funds@[i as int]@);
            assert(hit == coin_qualifies(funds@[i as int]@, threshold));
            if hit {
                assert(coin_qualifies(post[i as int], threshold));
                assert(donation_qualifies(post, threshold));
            } else if qualifies {
                let j = choose|j: int| 0 <= j < pre.len() && coin_qualifies(pre[j], threshold);
                assert(post[j] == pre[j]);
                assert(donation_qualifies(post, threshold));
            } else {
                assert forall|j: int| 0 <= j < post.len() implies !coin_qualifies(
                    post[j],
                    threshold,
                ) by {
                    if j < i {
                        assert(post[j] == pre[j]);
                    } else {
                        assert(post[j] == funds@[i as int]@);
                    }
                }
            }
        }
        if hit {
            qualifies = true;
        }
        i += 1;
    }
    proof {
        assert(coins_view(funds@).take(funds@.len() as int) =~= coins_view(funds@));
    }

    let new_counter = if qualifies {
        counter + 1
    } else {
        counter
    };
    if qualifies {
        store.state = Some(State { counter: new_counter, minimal_donation });
    }

    let resp = Response::new().add_attribute("action".to_owned(), "donate".to_owned())
        .add_attribute("sender".to_owned(), sender.clone()).add_attribute(
        "counter".to_owned(),
        u64_to_decimal(new_counter),
    );
    proof {
        assert(resp@ =~~= donate_response_view(sender@, new_counter));
    }
    Ok(resp)
}

/// The response a withdrawal returns: one transfer of the whole balance to
/// the owner, and the action and sender as attributes.
pub open spec fn withdraw_response_view(owner: Seq<char>, balance: Seq<CoinV>) -> ResponseV {
    ResponseV {
        messages: seq![BankSendV { to_address: owner, amount: balance }],
        attributes: seq![
            AttributeV { key: "action"@, value: "withdraw"@ },
            AttributeV { key: "sender"@, value: owner },
        ],
    }
}

/// Everything `withdraw` guarantees about its result, given the store it saw
/// and the balance the host supplied. The store itself is never changed.
pub open spec fn withdraw_post(
    pre: StoreV,
    sender: Seq<char>,
    balance: Seq<CoinV>,
    r: Result<Response, ContractError>,
) -> bool {
    match pre.owner {
        None => r matches Err(e) && e@ == ContractErrorV::Std(spec_not_found_owner()),
        Some(owner) => if sender == owner {
            r matches Ok(resp) && resp@ == withdraw_response_view(owner, balance)
        } else {
            r matches Err(e) && e@ == (ContractErrorV::Unauthorized { owner })
        },
    }
}

/// Sweeps the whole current balance (supplied by the host) to the owner, as a
/// single transfer effect. Only the recorded owner may call it; any other
/// caller gets `Unauthorized` carrying the expected owner, before any effect
/// is constructed. The state — the counter in particular — is never touched.
pub fn withdraw(store: &mut Store, sender: &String, balance: &Vec<Coin>) -> (r: Result<
    Response,
    ContractError,
>)
    ensures
        final(store)@ == old(store)@,
        withdraw_post(old(store)@, sender@, coins_view(balance@), r),
{
    let owner = match &store.owner {
        Some(o) => o.clone(),
        None => {
            return Err(ContractError::Std(StdError::not_found("owner".to_owned())));
        },
    };
    if !sender.eq(&owner) {
        return Err(ContractError::Unauthorized { owner });
    }

    let amount = clone_coins(balance);
    let bank_msg = BankSend { to_address: owner.clone(), amount };
    let resp = Response::new().add_message(bank_msg).add_attribute(
        "action".to_owned(),
        "withdraw".to_owned(),
    ).add_attribute("sender".to_owned(), owner);
    proof {
        assert(resp@ =~~= withdraw_response_view(old(store)@.owner->Some_0, coins_view(balance@)));
    }
    Ok(resp)
}

/// A copy of one coin.
fn clone_coin(c: &Coin) -> (r: Coin)
    ensures
        r@ == c@,
{
    Coin { amount: c.amount, denom: c.denom.clone() }
}

/// A copy of a list of coins.
fn clone_coins(v: &Vec<Coin>) -> (r: Vec<Coin>)
    ensures
        coins_view(r@) == coins_view(v@),
{
    let mut r: Vec<Coin> = Vec::new();
    let mut i: usize = 0;
    while i < v.len()
        invariant
            0 <= i <= v.len(),
            r@.len() == i,
            forall|j: int| 0 <= j < i ==> #[trigger] r@[j]@ == v@[j]@,
        decreases v.len() - i,
    {
        r.push(clone_coin(&v[i]));
        i += 1;
    }
    proof {
        assert(coins_view(r@) =~= coins_view(v@));
    }
    r
}

// ---------------------------------------------------------------------------
// Migration engine
// ---------------------------------------------------------------------------

/// The store after one migration step. Only a legacy deployment with both
/// legacy slots present is rewritten: its two slots become the composite
/// state, and the recorded version becomes current. Every other store — a
/// foreign name, a missing slot, an already-current or unknown version — is
/// left exactly as it was.
pub open spec fn spec_migrate_store(s: StoreV) -> StoreV {
    match s.version_info {
        None => s,
        Some(vi) => if vi.contract != spec_contract_name() {
            s
        } else if vi.version == spec_legacy_version() {
            match (s.legacy_counter, s.legacy_minimal_donation) {
                (Some(c), Some(md)) => StoreV {
                    version_info: Some(
                        ContractVersionV {
                            contract: spec_contract_name(),
                            version: spec_contract_version(),
                        },
                    ),
                    state: Some(StateV { counter: c, minimal_donation: md }),
                    owner: s.owner,
                    legacy_counter: s.legacy_counter,
                    legacy_minimal_donation: s.legacy_minimal_donation,
                },
                _ => s,
            }
        } else {
            s
        },
    }
}

/// Whether one migration step succeeds, and with which error it fails.
pub open spec fn spec_migrate_result(s: StoreV) -> Result<(), ContractErrorV> {
    match s.version_info {
        None => Err(ContractErrorV::Std(spec_not_found_contract_info())),
        Some(vi) => if vi.contract != spec_contract_name() {
            Err(ContractErrorV::InvalidName(vi.contract))
        } else if vi.version == spec_legacy_version() {
            match (s.legacy_counter, s.legacy_minimal_donation) {
                (Some(_), Some(_)) => Ok(()),
                (None, _) => Err(ContractErrorV::Std(spec_not_found_counter())),
                (Some(_), None) => Err(ContractErrorV::Std(spec_not_found_minimal_donation())),
            }
        } else if vi.version == spec_contract_version() {
            Ok(())
        } else {
            Err(ContractErrorV::InvalidVersion(vi.version))
        },
    }
}

/// Everything `migrate` guarantees about its result: it succeeds exactly when
/// `spec_migrate_result` does, with an empty response, and fails with exactly
/// the error `spec_migrate_result` names.
pub open spec fn migrate_result_post(pre: StoreV, r: Result<Response, ContractError>) -> bool {
    match r {
        Ok(resp) => spec_migrate_result(pre) is Ok && resp@ == ResponseV::empty(),
        Err(e) => spec_migrate_result(pre) == Err::<(), ContractErrorV>(e@),
    }
}

/// One migration step. Reads the recorded metadata; refuses a foreign name;
/// rewrites a legacy deployment into the composite layout and marks it
/// current; accepts an already-current deployment as a harmless no-op; and
/// refuses any other recorded version. All-or-nothing: on any failure the
/// store is exactly as it was.
pub fn migrate(store: &mut Store) -> (r: Result<Response, ContractError>)
    ensures
        final(store)@ == spec_migrate_store(old(store)@),
        migrate_result_post(old(store)@, r),
{
    let vi = match &store.version_info {
        Some(vi) => ContractVersion {
            contract: vi.contract.clone(),
            version: vi.version.clone(),
        },
        None => {
            return Err(ContractError::Std(StdError::not_found("contract_info".to_owned())));
        },
    };
    if !vi.contract.eq(&contract_name()) {
        return Err(ContractError::InvalidName(vi.contract));
    }
    if vi.version.eq(&legacy_version()) {
        let counter = match &store.legacy_counter {
            Some(c) => *c,
            None => {
                return Err(ContractError::Std(StdError::not_found("counter".to_owned())));
            },
        };
        let minimal_donation = match &store.legacy_minimal_donation {
            Some(md) => clone_coin(md),
            None => {
                return Err(
                    ContractError::Std(StdError::not_found("minimal_donation".to_owned())),
                );
            },
        };
        store.state = Some(State { counter, minimal_donation });
        store.version_info = Some(
            ContractVersion { contract: contract_name(), version: contract_version() },
        );
        Ok(Response::new())
    } else if vi.version.eq(&contract_version()) {
        Ok(Response::new())
    } else {
        Err(ContractError::InvalidVersion(vi.version))
    }
}

// ---------------------------------------------------------------------------
// Laws
// ---------------------------------------------------------------------------

/// The state after a sequence of donations, applied in order.
pub open spec fn spec_donate_seq(st: StateV, calls: Seq<Seq<CoinV>>) -> StateV
    decreases calls.len(),
{
    if calls.len() == 0 {
        st
    } else {
        spec_donate_seq(spec_donate_state(st, calls[0]), calls.drop_first())
    }
}

/// How many of the calls carried at least one qualifying coin.
pub open spec fn count_qualifying(calls: Seq<Seq<CoinV>>, threshold: CoinV) -> nat
    decreases calls.len(),
{
    if calls.len() == 0 {
        0
    } else {
        (if donation_qualifies(calls[0], threshold) {
            1nat
        } else {
            0nat
        }) + count_qualifying(calls.drop_first(), threshold)
    }
}

/// Law: over any sequence of donations, the counter ends at exactly its start
/// plus the number of calls whose funds contained a qualifying coin —
/// non-qualifying calls never change it — and the threshold never changes.
/// The bound keeps the count within the counter's machine width.
pub proof fn lemma_threshold_monotonicity(st: StateV, calls: Seq<Seq<CoinV>>)
    requires
        st.counter + count_qualifying(calls, st.minimal_donation) <= u64::MAX,
    ensures
        spec_donate_seq(st, calls).counter == st.counter + count_qualifying(
            calls,
            st.minimal_donation,
        ),
        spec_donate_seq(st, calls).minimal_donation == st.minimal_donation,
    decreases calls.len(),
{
    if calls.len() > 0 {
        let st1 = spec_donate_state(st, calls[0]);
        lemma_threshold_monotonicity(st1, calls.drop_first());
    }
}

/// The current and the legacy version strings differ.
pub proof fn lemma_versions_distinct()
    ensures
        spec_contract_version() != spec_legacy_version(),
{
    reveal_strlit("0.1.0");
    reveal_strlit("0.2.0");
    assert(spec_contract_version()[2] == '2');
    assert(spec_legacy_version()[2] == '1');
}

/// Law: migration is idempotent. A step that succeeds leaves the store
/// current, so a second step succeeds too and changes nothing — in
/// particular, on an already-current deployment both runs are harmless
/// no-ops.
pub proof fn lemma_migration_idempotent(s: StoreV)
    requires
        spec_migrate_result(s) is Ok,
    ensures
        spec_migrate_result(spec_migrate_store(s)) is Ok,
        spec_migrate_store(spec_migrate_store(s)) == spec_migrate_store(s),
{
    lemma_versions_distinct();
}

/// Law: migration from a recorded version that is neither the legacy version
/// nor the current one fails with `InvalidVersion` carrying that version, and
/// leaves the store untouched.
pub proof fn lemma_unknown_version_rejected(s: StoreV)
    requires
        s.version_info matches Some(vi) && vi.contract == spec_contract_name() && vi.version
            != spec_legacy_version() && vi.version != spec_contract_version(),
    ensures
        spec_migrate_store(s) == s,
        spec_migrate_result(s) == Err::<(), ContractErrorV>(
            ContractErrorV::InvalidVersion(s.version_info->Some_0.version),
        ),
{
}

} // verus!
