//! The engine's global guarantees, proved over the handler specifications.
//!
//! Each proof function here states one law of the engine: creation is
//! unrepeatable, the reserve invariant is established at birth, closing is
//! exactly guarded and terminal, supply accounting is exact over whole
//! deposit sequences, and every mutation is authority-gated.

use crate::account::AccountModel;
use crate::errors::LendError;
use crate::lending_market::{spec_decode_market, LENDING_MARKET_LEN};
use crate::market_instructions::{
    spec_process_init_lending_market, spec_process_set_emergency_mode,
    spec_process_update_lending_market_owner, spec_process_update_risk_council,
};
use crate::obligation_instructions::spec_process_init_obligation;
use crate::pda::spec_vault_seeds;
use crate::reserve::{
    lemma_reserve_codec_roundtrip, spec_decode_reserve, spec_reserve_bytes, RESERVE_LEN,
};
use crate::reserve_instructions::{
    spec_process_close_reserve, spec_process_disable_reserve, spec_process_enable_reserve,
    spec_process_init_reserve, spec_process_supply_liquidity, spec_reserve_gate,
};
use vstd::bytes::{lemma_auto_spec_u64_to_from_le_bytes, spec_u64_to_le_bytes};
use vstd::prelude::*;

verus! {

/// A successful market creation leaves the record non-empty, so a second
/// creation at the same staged account — one that clears the envelope
/// checks: a payload of the right size and the signature present — always
/// fails as a re-init, whatever identity or balance it brings.
pub proof fn lemma_market_init_at_most_once(
    accounts: Seq<AccountModel>,
    payload: Seq<u8>,
    program_id: Seq<u8>,
    min_balance: u64,
    accounts2: Seq<AccountModel>,
    payload2: Seq<u8>,
    program_id2: Seq<u8>,
    min_balance2: u64,
)
    requires
        spec_process_init_lending_market(accounts, payload, program_id, min_balance) is Ok,
        accounts2.len() >= 3,
        accounts2[1] == spec_process_init_lending_market(
            accounts,
            payload,
            program_id,
            min_balance,
        )->Ok_0.1,
        payload2.len() == 96,
        accounts2[0].is_signer,
    ensures
        spec_process_init_lending_market(accounts2, payload2, program_id2, min_balance2) == Err::<
            (AccountModel, AccountModel),
            LendError,
        >(LendError::AccountAlreadyInitialized),
{
    lemma_auto_spec_u64_to_from_le_bytes();
    assert(accounts2[1].data.len() == LENDING_MARKET_LEN);
}

/// A successful reserve creation leaves the record non-empty, so a second
/// creation at the same staged account — one that clears the envelope
/// checks — always fails as a re-init.
pub proof fn lemma_reserve_init_at_most_once(
    accounts: Seq<AccountModel>,
    payload: Seq<u8>,
    program_id: Seq<u8>,
    reserve_min_balance: u64,
    vault_min_balance: u64,
    accounts2: Seq<AccountModel>,
    payload2: Seq<u8>,
    program_id2: Seq<u8>,
    reserve_min_balance2: u64,
    vault_min_balance2: u64,
)
    requires
        spec_process_init_reserve(
            accounts,
            payload,
            program_id,
            reserve_min_balance,
            vault_min_balance,
        ) is Ok,
        accounts2.len() >= 7,
        accounts2[1] == spec_process_init_reserve(
            accounts,
            payload,
            program_id,
            reserve_min_balance,
            vault_min_balance,
        )->Ok_0.1,
        payload2.len() == 22,
        accounts2[0].is_signer,
    ensures
        spec_process_init_reserve(
            accounts2,
            payload2,
            program_id2,
            reserve_min_balance2,
            vault_min_balance2,
        ) is Err,
        spec_process_init_reserve(
            accounts2,
            payload2,
            program_id2,
            reserve_min_balance2,
            vault_min_balance2,
        )->Err_0 == LendError::AccountAlreadyInitialized,
{
    lemma_auto_spec_u64_to_from_le_bytes();
    vstd::bytes::lemma_auto_spec_u16_to_from_le_bytes();
    vstd::bytes::lemma_auto_spec_u128_to_from_le_bytes();
    let ltv = vstd::bytes::spec_u16_from_le_bytes(payload.subrange(0, 2));
    let threshold = vstd::bytes::spec_u16_from_le_bytes(payload.subrange(2, 4));
    let bonus = vstd::bytes::spec_u16_from_le_bytes(payload.subrange(4, 6));
    let state = crate::reserve::spec_new_reserve(
        accounts[2].key,
        accounts[3].key,
        ltv,
        threshold,
        bonus,
        vstd::bytes::spec_u64_from_le_bytes(payload.subrange(6, 14)),
        vstd::bytes::spec_u64_from_le_bytes(payload.subrange(14, 22)),
    );
    assert(accounts2[1].data == spec_reserve_bytes(state));
    assert(accounts2[1].data.len() != 0);
}

/// A successful obligation creation leaves the record non-empty, so a
/// second creation at the same staged account — one that clears the
/// envelope checks — always fails as a re-init.
pub proof fn lemma_obligation_init_at_most_once(
    accounts: Seq<AccountModel>,
    payload: Seq<u8>,
    program_id: Seq<u8>,
    min_balance: u64,
    slot: u64,
    accounts2: Seq<AccountModel>,
    payload2: Seq<u8>,
    program_id2: Seq<u8>,
    min_balance2: u64,
    slot2: u64,
)
    requires
        spec_process_init_obligation(accounts, payload, program_id, min_balance, slot) is Ok,
        accounts2.len() == 6,
        accounts2[1] == spec_process_init_obligation(
            accounts,
            payload,
            program_id,
            min_balance,
            slot,
        )->Ok_0.1,
        payload2.len() == 1,
        accounts2[0].is_signer,
    ensures
        spec_process_init_obligation(accounts2, payload2, program_id2, min_balance2, slot2)
            == Err::<(AccountModel, AccountModel), LendError>(
            LendError::AccountAlreadyInitialized,
        ),
{
    let s = spec_process_init_obligation(accounts, payload, program_id, min_balance, slot);
    let state = crate::obligation::spec_new_obligation(
        accounts[2].key,
        accounts[0].key,
        slot,
    );
    lemma_auto_spec_u64_to_from_le_bytes();
    crate::obligation::lemma_collaterals_bytes_len(state.deposits);
    crate::obligation::lemma_liquidities_bytes_len(state.borrows);
    assert(accounts2[1].data.len() > 0);
}

/// A reserve written by `InitReserve` satisfies the reserve invariant:
/// `ltv < liquidation_threshold <= 10000` and `liquidation_bonus <= 2000`
/// hold of the decoded record, together with the rest of the
/// well-formedness predicate.
pub proof fn lemma_reserve_init_establishes_invariant(
    accounts: Seq<AccountModel>,
    payload: Seq<u8>,
    program_id: Seq<u8>,
    reserve_min_balance: u64,
    vault_min_balance: u64,
)
    requires
        accounts.len() >= 7,
        accounts[2].wf(),
        accounts[3].wf(),
        spec_process_init_reserve(
            accounts,
            payload,
            program_id,
            reserve_min_balance,
            vault_min_balance,
        ) is Ok,
    ensures
        ({
            let written = spec_process_init_reserve(
                accounts,
                payload,
                program_id,
                reserve_min_balance,
                vault_min_balance,
            )->Ok_0.1;
            let state = spec_decode_reserve(written.data);
            &&& state.wf()
            &&& state.ltv < state.liquidation_threshold
            &&& state.liquidation_threshold <= 10000
            &&& state.liquidation_bonus <= 2000
        }),
{
    let written = spec_process_init_reserve(
        accounts,
        payload,
        program_id,
        reserve_min_balance,
        vault_min_balance,
    )->Ok_0.1;
    let state = crate::reserve::spec_new_reserve(
        accounts[2].key,
        accounts[3].key,
        vstd::bytes::spec_u16_from_le_bytes(payload.subrange(0, 2)),
        vstd::bytes::spec_u16_from_le_bytes(payload.subrange(2, 4)),
        vstd::bytes::spec_u16_from_le_bytes(payload.subrange(4, 6)),
        vstd::bytes::spec_u64_from_le_bytes(payload.subrange(6, 14)),
        vstd::bytes::spec_u64_from_le_bytes(payload.subrange(14, 22)),
    );
    assert(written.data == spec_reserve_bytes(state));
    lemma_reserve_codec_roundtrip(state);
}

/// `InitReserve` rejects every payload whose risk parameters violate the
/// bounds, with `InvalidInstructionData`, once the account checks pass.
pub proof fn lemma_reserve_init_rejects_bad_params(
    accounts: Seq<AccountModel>,
    payload: Seq<u8>,
    program_id: Seq<u8>,
    reserve_min_balance: u64,
    vault_min_balance: u64,
)
    requires
        accounts.len() >= 7,
        payload.len() == 22,
        accounts[0].is_signer,
        accounts[1].data.len() == 0,
        accounts[2].data.len() == LENDING_MARKET_LEN,
        accounts[0].key == spec_decode_market(accounts[2].data).lending_market_owner,
        crate::pda::spec_pda_matches(
            accounts[1].key,
            crate::pda::spec_reserve_seeds(accounts[2].key, accounts[3].key),
            program_id,
        ),
        ({
            let ltv = vstd::bytes::spec_u16_from_le_bytes(payload.subrange(0, 2));
            let threshold = vstd::bytes::spec_u16_from_le_bytes(payload.subrange(2, 4));
            let bonus = vstd::bytes::spec_u16_from_le_bytes(payload.subrange(4, 6));
            ltv > crate::BPS_MAX || threshold > crate::BPS_MAX
                || bonus > crate::LIQUIDATION_BONUS_MAX || ltv >= threshold
        }),
    ensures
        spec_process_init_reserve(
            accounts,
            payload,
            program_id,
            reserve_min_balance,
            vault_min_balance,
        ) is Err,
        spec_process_init_reserve(
            accounts,
            payload,
            program_id,
            reserve_min_balance,
            vault_min_balance,
        )->Err_0 == LendError::InvalidInstructionData,
{
}

/// Closing succeeds exactly when the reserve holds no liquidity, has no
/// borrows and is not already closed, once the authority and account
/// checks pass.
pub proof fn lemma_close_reserve_iff(
    accounts: Seq<AccountModel>,
    payload: Seq<u8>,
    program_id: Seq<u8>,
)
    requires
        accounts.len() >= 3,
        payload.len() == 0,
        accounts[0].is_signer,
        accounts[2].data.len() == LENDING_MARKET_LEN,
        accounts[0].key == spec_decode_market(accounts[2].data).lending_market_owner,
        accounts[1].owner == program_id,
        accounts[1].data.len() == RESERVE_LEN,
        spec_decode_reserve(accounts[1].data).lending_market == accounts[2].key,
    ensures
        ({
            let state = spec_decode_reserve(accounts[1].data);
            (spec_process_close_reserve(accounts, payload, program_id) is Ok) == (
            state.available_liquidity == 0 && state.total_borrows == 0 && state.is_closed != 1)
        }),
{
}

/// After a successful close, every operation flag of the written record is
/// off, and any further close, enable or disable of that record fails,
/// under every authority, payload and identity; a repeat close that gets
/// past the authority gate fails precisely as a re-initialization.
pub proof fn lemma_closed_reserve_is_terminal(
    accounts: Seq<AccountModel>,
    payload: Seq<u8>,
    program_id: Seq<u8>,
    accounts2: Seq<AccountModel>,
    payload2: Seq<u8>,
    program_id2: Seq<u8>,
)
    requires
        spec_process_close_reserve(accounts, payload, program_id) is Ok,
        accounts.len() >= 3,
        accounts2.len() >= 3,
        accounts2[1] == spec_process_close_reserve(accounts, payload, program_id)->Ok_0,
    ensures
        ({
            let state = spec_decode_reserve(
                spec_process_close_reserve(accounts, payload, program_id)->Ok_0.data,
            );
            state.is_closed == 1 && state.is_active == 0 && state.allow_deposits == 0
                && state.allow_borrows == 0
        }),
        spec_process_close_reserve(accounts2, payload2, program_id2) is Err,
        spec_reserve_gate(
            accounts2[0],
            accounts2[1],
            accounts2[2],
            payload2,
            program_id2,
            true,
        ) is Ok ==> spec_process_close_reserve(accounts2, payload2, program_id2)->Err_0
            == LendError::AccountAlreadyInitialized,
        spec_process_enable_reserve(accounts2, payload2, program_id2) is Err,
        spec_process_disable_reserve(accounts2, payload2, program_id2) is Err,
{
    let old_state = spec_decode_reserve(accounts[1].data);
    let closed = crate::reserve::ReserveModel {
        is_closed: 1u8,
        is_active: 0u8,
        allow_deposits: 0u8,
        allow_borrows: 0u8,
        ..old_state
    };
    assert(spec_process_close_reserve(accounts, payload, program_id)->Ok_0.data
        == spec_reserve_bytes(closed));
    lemma_reserve_codec_roundtrip(closed);
}

/// The supply sequence law needs the running total of a deposit sequence.
pub open spec fn spec_sum(amounts: Seq<u64>) -> int
    decreases amounts.len(),
{
    if amounts.len() == 0 {
        0
    } else {
        amounts[0] + spec_sum(amounts.subrange(1, amounts.len() as int))
    }
}

/// Running totals are never negative.
pub proof fn lemma_sum_nonneg(amounts: Seq<u64>)
    ensures
        spec_sum(amounts) >= 0,
    decreases amounts.len(),
{
    if amounts.len() > 0 {
        lemma_sum_nonneg(amounts.subrange(1, amounts.len() as int));
    }
}

/// The reserve account after a whole sequence of deposits, each staged by
/// `SupplyLiquidity` on the account list with the previous stage applied.
pub open spec fn spec_run_supplies(
    accounts: Seq<AccountModel>,
    amounts: Seq<u64>,
    program_id: Seq<u8>,
) -> Result<AccountModel, LendError>
    decreases amounts.len(),
{
    if amounts.len() == 0 {
        Ok(accounts[2])
    } else {
        match spec_process_supply_liquidity(
            accounts,
            spec_u64_to_le_bytes(amounts[0]),
            program_id,
        ) {
            Err(e) => Err(e),
            Ok(p) => spec_run_supplies(
                accounts.update(2, p.0),
                amounts.subrange(1, amounts.len() as int),
                program_id,
            ),
        }
    }
}

/// For every sequence of positive deposits whose running total stays
/// within the deposit cap (or within `u64` when the cap is 0), every
/// deposit succeeds and both liquidity counters of the final record grow
/// by exactly the sum of the sequence.
pub proof fn lemma_supply_sequence_exact(
    accounts: Seq<AccountModel>,
    amounts: Seq<u64>,
    program_id: Seq<u8>,
)
    requires
        accounts.len() >= 5,
        accounts[0].is_signer,
        accounts[2].owner == program_id,
        accounts[2].data.len() == RESERVE_LEN,
        ({
            let state = spec_decode_reserve(accounts[2].data);
            &&& state.is_active == 1
            &&& state.is_closed == 0
            &&& state.allow_deposits == 1
            &&& state.available_liquidity <= state.total_supply
        }),
        crate::pda::spec_pda_matches(
            accounts[3].key,
            spec_vault_seeds(accounts[2].key),
            program_id,
        ),
        forall|i: int| 0 <= i < amounts.len() ==> amounts[i] > 0,
        ({
            let state = spec_decode_reserve(accounts[2].data);
            if state.deposit_cap > 0 {
                state.total_supply + spec_sum(amounts) <= state.deposit_cap
            } else {
                state.total_supply + spec_sum(amounts) <= u64::MAX
            }
        }),
    ensures
        spec_run_supplies(accounts, amounts, program_id) is Ok,
        ({
            let final_account = spec_run_supplies(accounts, amounts, program_id)->Ok_0;
            let state0 = spec_decode_reserve(accounts[2].data);
            let state = spec_decode_reserve(final_account.data);
            &&& state.total_supply == state0.total_supply + spec_sum(amounts)
            &&& state.available_liquidity == state0.available_liquidity + spec_sum(amounts)
            &&& final_account.key == accounts[2].key
            &&& final_account.owner == accounts[2].owner
        }),
    decreases amounts.len(),
{
    let state0 = spec_decode_reserve(accounts[2].data);
    if amounts.len() == 0 {
    } else {
        let amount = amounts[0];
        let rest = amounts.subrange(1, amounts.len() as int);
        lemma_sum_nonneg(rest);
        lemma_auto_spec_u64_to_from_le_bytes();
        let payload = spec_u64_to_le_bytes(amount);
        let step = spec_process_supply_liquidity(accounts, payload, program_id);
        assert(payload.subrange(0, 8) =~= payload);
        assert(state0.total_supply + amount <= u64::MAX);
        assert(step is Ok);
        let updated = crate::reserve::ReserveModel {
            available_liquidity: (state0.available_liquidity + amount) as u64,
            total_supply: (state0.total_supply + amount) as u64,
            ..state0
        };
        assert(step->Ok_0.0.data == spec_reserve_bytes(updated));
        lemma_reserve_codec_roundtrip(updated);
        let accounts1 = accounts.update(2, step->Ok_0.0);
        assert(accounts1[0] == accounts[0]);
        assert(accounts1[3] == accounts[3]);
        assert(spec_decode_reserve(accounts1[2].data) == updated);
        lemma_supply_sequence_exact(accounts1, rest, program_id);
    }
}

/// A deposit that would push the total over a nonzero cap is rejected with
/// `InvalidInstructionData`; the cap itself is inclusive.
pub proof fn lemma_supply_over_cap_rejected(
    accounts: Seq<AccountModel>,
    payload: Seq<u8>,
    program_id: Seq<u8>,
)
    requires
        accounts.len() >= 5,
        payload.len() == 8,
        accounts[0].is_signer,
        accounts[2].owner == program_id,
        accounts[2].data.len() == RESERVE_LEN,
        ({
            let state = spec_decode_reserve(accounts[2].data);
            let amount = vstd::bytes::spec_u64_from_le_bytes(payload.subrange(0, 8));
            &&& state.is_active == 1
            &&& state.is_closed == 0
            &&& state.allow_deposits == 1
            &&& amount > 0
            &&& state.total_supply + amount <= u64::MAX
            &&& state.deposit_cap > 0
            &&& state.total_supply + amount > state.deposit_cap
        }),
    ensures
        spec_process_supply_liquidity(accounts, payload, program_id) == Err::<
            (AccountModel, crate::reserve_instructions::TokenTransferModel),
            LendError,
        >(LendError::InvalidInstructionData),
{
}

/// Ownership transfer is gated on the recorded owner: any other signer is
/// rejected with `IllegalOwner`.
pub proof fn lemma_update_owner_requires_owner(accounts: Seq<AccountModel>, payload: Seq<u8>)
    requires
        accounts.len() >= 2,
        payload.len() == 32,
        accounts[0].is_signer,
        accounts[1].data.len() == LENDING_MARKET_LEN,
        accounts[0].key != spec_decode_market(accounts[1].data).lending_market_owner,
    ensures
        spec_process_update_lending_market_owner(accounts, payload) == Err::<
            AccountModel,
            LendError,
        >(LendError::IllegalOwner),
{
}

/// Risk council rotation is gated on the recorded owner: any other signer
/// is rejected with `IllegalOwner`.
pub proof fn lemma_update_risk_council_requires_owner(
    accounts: Seq<AccountModel>,
    payload: Seq<u8>,
)
    requires
        accounts.len() >= 2,
        payload.len() == 32,
        accounts[0].is_signer,
        accounts[1].data.len() == LENDING_MARKET_LEN,
        accounts[0].key != spec_decode_market(accounts[1].data).lending_market_owner,
    ensures
        spec_process_update_risk_council(accounts, payload) == Err::<AccountModel, LendError>(
            LendError::IllegalOwner,
        ),
{
}

/// The emergency switch is gated on the owner or the risk council: any
/// other signer is rejected with `IllegalOwner`.
pub proof fn lemma_set_emergency_mode_requires_authority(
    accounts: Seq<AccountModel>,
    payload: Seq<u8>,
)
    requires
        accounts.len() >= 2,
        payload.len() == 1,
        accounts[0].is_signer,
        accounts[1].data.len() == LENDING_MARKET_LEN,
        accounts[0].key != spec_decode_market(accounts[1].data).lending_market_owner,
        accounts[0].key != spec_decode_market(accounts[1].data).risk_council,
    ensures
        spec_process_set_emergency_mode(accounts, payload) == Err::<AccountModel, LendError>(
            LendError::IllegalOwner,
        ),
{
}

/// Closing is gated on the owner alone: the risk council or any other
/// signer is rejected with `IllegalOwner`.
pub proof fn lemma_close_reserve_requires_owner(
    accounts: Seq<AccountModel>,
    payload: Seq<u8>,
    program_id: Seq<u8>,
)
    requires
        accounts.len() >= 3,
        payload.len() == 0,
        accounts[0].is_signer,
        accounts[2].data.len() == LENDING_MARKET_LEN,
        accounts[0].key != spec_decode_market(accounts[2].data).lending_market_owner,
    ensures
        spec_process_close_reserve(accounts, payload, program_id) == Err::<
            AccountModel,
            LendError,
        >(LendError::IllegalOwner),
{
}

/// Enabling and disabling are gated on the owner or the risk council: any
/// other signer is rejected with `IllegalOwner`.
pub proof fn lemma_enable_disable_require_authority(
    accounts: Seq<AccountModel>,
    payload: Seq<u8>,
    program_id: Seq<u8>,
)
    requires
        accounts.len() >= 3,
        payload.len() == 0,
        accounts[0].is_signer,
        accounts[2].data.len() == LENDING_MARKET_LEN,
        accounts[0].key != spec_decode_market(accounts[2].data).lending_market_owner,
        accounts[0].key != spec_decode_market(accounts[2].data).risk_council,
    ensures
        spec_process_enable_reserve(accounts, payload, program_id) == Err::<
            AccountModel,
            LendError,
        >(LendError::IllegalOwner),
        spec_process_disable_reserve(accounts, payload, program_id) == Err::<
            AccountModel,
            LendError,
        >(LendError::IllegalOwner),
{
}

/// Enabling preserves the reserve invariant: the record it writes is as
/// well-formed as the one it read.
pub proof fn lemma_enable_preserves_invariant(
    accounts: Seq<AccountModel>,
    payload: Seq<u8>,
    program_id: Seq<u8>,
)
    requires
        accounts.len() >= 3,
        spec_decode_reserve(accounts[1].data).wf(),
        spec_process_enable_reserve(accounts, payload, program_id) is Ok,
    ensures
        spec_decode_reserve(
            spec_process_enable_reserve(accounts, payload, program_id)->Ok_0.data,
        ).wf(),
{
    let state = spec_decode_reserve(accounts[1].data);
    lemma_reserve_codec_roundtrip(crate::reserve::ReserveModel { is_active: 1u8, ..state });
}

/// Disabling preserves the reserve invariant.
pub proof fn lemma_disable_preserves_invariant(
    accounts: Seq<AccountModel>,
    payload: Seq<u8>,
    program_id: Seq<u8>,
)
    requires
        accounts.len() >= 3,
        spec_decode_reserve(accounts[1].data).wf(),
        spec_process_disable_reserve(accounts, payload, program_id) is Ok,
    ensures
        spec_decode_reserve(
            spec_process_disable_reserve(accounts, payload, program_id)->Ok_0.data,
        ).wf(),
{
    let state = spec_decode_reserve(accounts[1].data);
    lemma_reserve_codec_roundtrip(crate::reserve::ReserveModel { is_active: 0u8, ..state });
}

/// Closing preserves the reserve invariant; the closed record keeps every
/// operation flag off, as the invariant demands of a closed reserve.
pub proof fn lemma_close_preserves_invariant(
    accounts: Seq<AccountModel>,
    payload: Seq<u8>,
    program_id: Seq<u8>,
)
    requires
        accounts.len() >= 3,
        spec_decode_reserve(accounts[1].data).wf(),
        spec_process_close_reserve(accounts, payload, program_id) is Ok,
    ensures
        spec_decode_reserve(
            spec_process_close_reserve(accounts, payload, program_id)->Ok_0.data,
        ).wf(),
{
    let state = spec_decode_reserve(accounts[1].data);
    lemma_reserve_codec_roundtrip(
        crate::reserve::ReserveModel {
            is_closed: 1u8,
            is_active: 0u8,
            allow_deposits: 0u8,
            allow_borrows: 0u8,
            ..state
        },
    );
}

/// Supplying liquidity preserves the reserve invariant: in particular the
/// written record still respects a nonzero deposit cap, and its available
/// liquidity never exceeds its total supply.
pub proof fn lemma_supply_preserves_invariant(
    accounts: Seq<AccountModel>,
    payload: Seq<u8>,
    program_id: Seq<u8>,
)
    requires
        accounts.len() >= 5,
        spec_decode_reserve(accounts[2].data).wf(),
        spec_process_supply_liquidity(accounts, payload, program_id) is Ok,
    ensures
        spec_decode_reserve(
            spec_process_supply_liquidity(accounts, payload, program_id)->Ok_0.0.data,
        ).wf(),
{
    let state = spec_decode_reserve(accounts[2].data);
    let amount = vstd::bytes::spec_u64_from_le_bytes(payload.subrange(0, 8));
    lemma_reserve_codec_roundtrip(
        crate::reserve::ReserveModel {
            available_liquidity: (state.available_liquidity + amount) as u64,
            total_supply: (state.total_supply + amount) as u64,
            ..state
        },
    );
}

/// The emergency switch of a market record is always stored as 0 or 1:
/// creation writes 0, the switch handler normalizes its payload, and the
/// two authority rotations leave the switch untouched.
pub proof fn lemma_emergency_mode_is_binary(
    accounts: Seq<AccountModel>,
    payload: Seq<u8>,
    program_id: Seq<u8>,
    min_balance: u64,
)
    requires
        accounts.len() >= 3,
    ensures
        spec_process_init_lending_market(accounts, payload, program_id, min_balance) matches Ok(e)
            ==> spec_decode_market(e.1.data).emergency_mode == 0,
        spec_process_set_emergency_mode(accounts, payload) matches Ok(a) ==> spec_decode_market(
            a.data,
        ).emergency_mode <= 1,
        ({
            let before = spec_decode_market(accounts[1].data).emergency_mode;
            &&& (spec_process_update_lending_market_owner(accounts, payload) matches Ok(a)
                ==> spec_decode_market(a.data).emergency_mode == before)
            &&& (spec_process_update_risk_council(accounts, payload) matches Ok(a)
                ==> spec_decode_market(a.data).emergency_mode == before)
        }),
{
    lemma_auto_spec_u64_to_from_le_bytes();
    if spec_process_init_lending_market(accounts, payload, program_id, min_balance) is Ok {
        let state = crate::lending_market::LendingMarketModel {
            version: 0u64,
            lending_market_owner: payload.subrange(0, 32),
            quote_currency: payload.subrange(32, 64),
            risk_council: payload.subrange(64, 96),
            emergency_mode: 0u8,
        };
        crate::lending_market::lemma_market_codec_roundtrip(state);
    }
    if spec_process_set_emergency_mode(accounts, payload) is Ok {
        let state = spec_decode_market(accounts[1].data);
        crate::lending_market::lemma_market_codec_roundtrip(
            crate::lending_market::LendingMarketModel {
                emergency_mode: if payload[0] != 0 {
                    1u8
                } else {
                    0u8
                },
                ..state
            },
        );
    }
    if spec_process_update_lending_market_owner(accounts, payload) is Ok {
        let state = spec_decode_market(accounts[1].data);
        crate::lending_market::lemma_market_codec_roundtrip(
            crate::lending_market::LendingMarketModel {
                lending_market_owner: payload.subrange(0, 32),
                ..state
            },
        );
    }
    if spec_process_update_risk_council(accounts, payload) is Ok {
        let state = spec_decode_market(accounts[1].data);
        crate::lending_market::lemma_market_codec_roundtrip(
            crate::lending_market::LendingMarketModel {
                risk_council: payload.subrange(0, 32),
                ..state
            },
        );
    }
}

} // verus!
