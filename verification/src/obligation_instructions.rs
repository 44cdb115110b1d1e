//! Obligation handler: creation of a borrower position record.
//!
//! The record is bound to a market and an owner, carries an id byte so one
//! borrower can hold several positions, and starts with every collateral
//! and borrow slot empty.  The current ledger slot is read by the host and
//! handed in as a plain value.

use crate::account::{account_models, AccountModel, StagedAccount};
use crate::errors::LendError;
use crate::lifecycle::{create_pda_account, spec_create_pda_account};
use crate::obligation::{
    spec_new_obligation, spec_obligation_bytes, ObligationState, OBLIGATION_LEN,
};
use crate::pda::{obligation_seeds, pda_matches, spec_obligation_seeds, spec_pda_matches};
use vstd::prelude::*;
use vstd::slice::slice_index_get;

verus! {

/// Payload of `InitObligation`: the position id.
#[derive(Clone, Copy, Debug, PartialEq, Eq)]
pub struct InitObligationIxData {
    /// Distinguishes several positions of one borrower in one market.
    pub id: u8,
}

impl InitObligationIxData {
    /// Parses the 1-byte payload.
    pub fn from_bytes(payload: &[u8]) -> (r: Result<Self, LendError>)
        ensures
            r is Ok <==> payload@.len() == 1,
            r matches Ok(ix) ==> ix.id == payload@[0],
            r matches Err(e) ==> e == LendError::InvalidInstructionData,
    {
        if payload.len() != 1 {
            return Err(LendError::InvalidInstructionData);
        }
        Ok(Self { id: *slice_index_get(payload, 0) })
    }

    /// Serializes the payload as the wire format carries it.
    pub fn to_bytes(&self) -> (r: Vec<u8>)
        ensures
            r@ == seq![self.id],
    {
        let mut out: Vec<u8> = Vec::new();
        out.push(self.id);
        proof {
            assert(out@ =~= seq![self.id]);
        }
        out
    }
}

/// What `InitObligation` stages: the drained payer and the freshly written
/// obligation record with every slot empty, or the first failed check.
pub open spec fn spec_process_init_obligation(
    accounts: Seq<AccountModel>,
    payload: Seq<u8>,
    program_id: Seq<u8>,
    min_balance: u64,
    slot: u64,
) -> Result<(AccountModel, AccountModel), LendError> {
    if accounts.len() != 6 {
        Err(LendError::NotEnoughAccountKeys)
    } else {
        let owner = accounts[0];
        let obligation = accounts[1];
        let market = accounts[2];
        if payload.len() != 1 {
            Err(LendError::InvalidInstructionData)
        } else if !owner.is_signer {
            Err(LendError::MissingRequiredSignature)
        } else if obligation.data.len() != 0 {
            Err(LendError::AccountAlreadyInitialized)
        } else if !spec_pda_matches(
            obligation.key,
            spec_obligation_seeds(payload[0], owner.key, market.key),
            program_id,
        ) {
            Err(LendError::InvalidSeeds)
        } else {
            match spec_create_pda_account(
                owner,
                obligation,
                OBLIGATION_LEN as nat,
                min_balance,
                program_id,
            ) {
                Err(e) => Err(e),
                Ok(p) => {
                    let state = spec_new_obligation(market.key, owner.key, slot);
                    Ok((p.0, AccountModel { data: spec_obligation_bytes(state), ..p.1 }))
                },
            }
        }
    }
}

/// Creates a borrower position record at its derived address.
///
/// Accounts: `{owner (signer), obligation (writable, empty), market, clock
/// info, rent info, system service}` — exactly six.  `slot` is the current
/// ledger slot, read by the host.  On success the record starts with empty
/// collateral and borrow slots and zeroed health bookkeeping.
pub fn process_init_obligation(
    accounts: &Vec<StagedAccount>,
    payload: &[u8],
    program_id: &[u8; 32],
    min_balance: u64,
    slot: u64,
) -> (r: Result<(StagedAccount, StagedAccount), LendError>)
    ensures
        (r is Ok) == (spec_process_init_obligation(
            account_models(accounts@),
            payload@,
            program_id@,
            min_balance,
            slot,
        ) is Ok),
        r matches Ok(e) ==> Ok::<_, LendError>((e.0@, e.1@)) == spec_process_init_obligation(
            account_models(accounts@),
            payload@,
            program_id@,
            min_balance,
            slot,
        ),
        r matches Err(e) ==> Err::<(AccountModel, AccountModel), _>(e)
            == spec_process_init_obligation(
            account_models(accounts@),
            payload@,
            program_id@,
            min_balance,
            slot,
        ),
{
    if accounts.len() != 6 {
        return Err(LendError::NotEnoughAccountKeys);
    }
    let owner = &accounts[0];
    let obligation = &accounts[1];
    let market = &accounts[2];
    if payload.len() != 1 {
        return Err(LendError::InvalidInstructionData);
    }
    if !owner.is_signer {
        return Err(LendError::MissingRequiredSignature);
    }
    if obligation.data.len() != 0 {
        return Err(LendError::AccountAlreadyInitialized);
    }
    let ix = InitObligationIxData::from_bytes(payload)?;
    let seeds = obligation_seeds(ix.id, &owner.key, &market.key);
    if !pda_matches(&obligation.key, &seeds, program_id) {
        return Err(LendError::InvalidSeeds);
    }
    let (new_payer, created) = create_pda_account(
        owner,
        obligation,
        OBLIGATION_LEN,
        min_balance,
        program_id,
    )?;
    let state = ObligationState::new(market.key, owner.key, slot);
    let new_obligation = StagedAccount {
        key: created.key,
        lamports: created.lamports,
        owner: created.owner,
        data: state.to_bytes(),
        is_signer: created.is_signer,
    };
    proof {
        let s = spec_process_init_obligation(
            account_models(accounts@),
            payload@,
            program_id@,
            min_balance,
            slot,
        );
        assert(new_obligation@ =~= s->Ok_0.1);
    }
    Ok((new_payer, new_obligation))
}

} // verus!
