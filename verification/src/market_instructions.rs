//! Lending market handlers: creation, ownership transfer, risk council
//! rotation and the emergency switch.
//!
//! Each handler validates fully before staging a single write, takes the
//! staged accounts in the positional order the instruction declares, and
//! returns the staged copies it wants applied.

use crate::account::{account_models, AccountModel, StagedAccount};
use crate::codec::{keys_equal, push_bytes32, read_bytes32};
use crate::errors::LendError;
use crate::lending_market::{
    spec_decode_market, spec_market_bytes, LendingMarketModel, LendingMarketState,
    LENDING_MARKET_LEN,
};
use crate::lifecycle::{create_pda_account, spec_create_pda_account};
use crate::pda::{market_seeds, pda_matches, spec_market_seeds, spec_pda_matches};
use vstd::prelude::*;
use vstd::slice::slice_index_get;

verus! {

/// Payload of `InitLendingMarket`: the market's three authorities.
#[derive(Clone, Copy, Debug, PartialEq, Eq)]
pub struct InitLendingMarketIxData {
    /// Must equal the signing account's address.
    pub lending_market_owner: [u8; 32],
    /// Tag of the value unit all prices are quoted in.
    pub quote_currency: [u8; 32],
    /// Secondary authority for emergency actions.
    pub risk_council: [u8; 32],
}

/// Payload of `UpdateLendingMarketOwner`: the replacement owner.
#[derive(Clone, Copy, Debug, PartialEq, Eq)]
pub struct UpdateLendingMarketOwnerIxData {
    /// The address ownership is handed to.
    pub new_owner: [u8; 32],
}

/// Payload of `UpdateRiskCouncil`: the replacement council.
#[derive(Clone, Copy, Debug, PartialEq, Eq)]
pub struct UpdateRiskCouncilIxData {
    /// The address the council rotates to.
    pub new_risk_council: [u8; 32],
}

/// Payload of `SetEmergencyMode`: the switch position.
#[derive(Clone, Copy, Debug, PartialEq, Eq)]
pub struct SetEmergencyModeIxData {
    /// Nonzero turns emergency mode on.
    pub enable: u8,
}

impl InitLendingMarketIxData {
    /// Parses the 96-byte payload.
    pub fn from_bytes(payload: &[u8]) -> (r: Result<Self, LendError>)
        ensures
            r is Ok <==> payload@.len() == 96,
            r matches Ok(ix) ==> ix.lending_market_owner@ == payload@.subrange(0, 32)
                && ix.quote_currency@ == payload@.subrange(32, 64) && ix.risk_council@
                == payload@.subrange(64, 96),
            r matches Err(e) ==> e == LendError::InvalidInstructionData,
    {
        if payload.len() != 96 {
            return Err(LendError::InvalidInstructionData);
        }
        Ok(
            Self {
                lending_market_owner: read_bytes32(payload, 0),
                quote_currency: read_bytes32(payload, 32),
                risk_council: read_bytes32(payload, 64),
            },
        )
    }

    /// Serializes the payload as the wire format carries it.
    pub fn to_bytes(&self) -> (r: Vec<u8>)
        ensures
            r@ == self.lending_market_owner@ + self.quote_currency@ + self.risk_council@,
    {
        let mut out: Vec<u8> = Vec::new();
        push_bytes32(&mut out, &self.lending_market_owner);
        push_bytes32(&mut out, &self.quote_currency);
        push_bytes32(&mut out, &self.risk_council);
        out
    }
}

impl UpdateLendingMarketOwnerIxData {
    /// Parses the 32-byte payload.
    pub fn from_bytes(payload: &[u8]) -> (r: Result<Self, LendError>)
        ensures
            r is Ok <==> payload@.len() == 32,
            r matches Ok(ix) ==> ix.new_owner@ == payload@.subrange(0, 32),
            r matches Err(e) ==> e == LendError::InvalidInstructionData,
    {
        if payload.len() != 32 {
            return Err(LendError::InvalidInstructionData);
        }
        Ok(Self { new_owner: read_bytes32(payload, 0) })
    }

    /// Serializes the payload as the wire format carries it.
    pub fn to_bytes(&self) -> (r: Vec<u8>)
        ensures
            r@ == self.new_owner@,
    {
        let mut out: Vec<u8> = Vec::new();
        push_bytes32(&mut out, &self.new_owner);
        proof {
            assert(out@ =~= self.new_owner@);
        }
        out
    }
}

impl UpdateRiskCouncilIxData {
    /// Parses the 32-byte payload.
    pub fn from_bytes(payload: &[u8]) -> (r: Result<Self, LendError>)
        ensures
            r is Ok <==> payload@.len() == 32,
            r matches Ok(ix) ==> ix.new_risk_council@ == payload@.subrange(0, 32),
            r matches Err(e) ==> e == LendError::InvalidInstructionData,
    {
        if payload.len() != 32 {
            return Err(LendError::InvalidInstructionData);
        }
        Ok(Self { new_risk_council: read_bytes32(payload, 0) })
    }

    /// Serializes the payload as the wire format carries it.
    pub fn to_bytes(&self) -> (r: Vec<u8>)
        ensures
            r@ == self.new_risk_council@,
    {
        let mut out: Vec<u8> = Vec::new();
        push_bytes32(&mut out, &self.new_risk_council);
        proof {
            assert(out@ =~= self.new_risk_council@);
        }
        out
    }
}

impl SetEmergencyModeIxData {
    /// Parses the 1-byte payload.
    pub fn from_bytes(payload: &[u8]) -> (r: Result<Self, LendError>)
        ensures
            r is Ok <==> payload@.len() == 1,
            r matches Ok(ix) ==> ix.enable == payload@[0],
            r matches Err(e) ==> e == LendError::InvalidInstructionData,
    {
        if payload.len() != 1 {
            return Err(LendError::InvalidInstructionData);
        }
        Ok(Self { enable: *slice_index_get(payload, 0) })
    }

    /// Serializes the payload as the wire format carries it.
    pub fn to_bytes(&self) -> (r: Vec<u8>)
        ensures
            r@ == seq![self.enable],
    {
        let mut out: Vec<u8> = Vec::new();
        out.push(self.enable);
        proof {
            assert(out@ =~= seq![self.enable]);
        }
        out
    }
}

/// What `InitLendingMarket` stages for a staged account list, a payload
/// and a program identity: either the funded, freshly written market
/// record together with the drained payer, or the first failed check.
pub open spec fn spec_process_init_lending_market(
    accounts: Seq<AccountModel>,
    payload: Seq<u8>,
    program_id: Seq<u8>,
    min_balance: u64,
) -> Result<(AccountModel, AccountModel), LendError> {
    if accounts.len() < 3 {
        Err(LendError::NotEnoughAccountKeys)
    } else {
        let payer = accounts[0];
        let market = accounts[1];
        if payload.len() != 96 {
            Err(LendError::InvalidInstructionData)
        } else if !payer.is_signer {
            Err(LendError::MissingRequiredSignature)
        } else if market.data.len() != 0 {
            Err(LendError::AccountAlreadyInitialized)
        } else {
            let owner = payload.subrange(0, 32);
            if owner != payer.key {
                Err(LendError::InvalidAccountData)
            } else if !spec_pda_matches(market.key, spec_market_seeds(owner), program_id) {
                Err(LendError::InvalidSeeds)
            } else {
                match spec_create_pda_account(
                    payer,
                    market,
                    LENDING_MARKET_LEN as nat,
                    min_balance,
                    program_id,
                ) {
                    Err(e) => Err(e),
                    Ok(p) => {
                        let state = LendingMarketModel {
                            version: 0u64,
                            lending_market_owner: owner,
                            quote_currency: payload.subrange(32, 64),
                            risk_council: payload.subrange(64, 96),
                            emergency_mode: 0u8,
                        };
                        Ok((p.0, AccountModel { data: spec_market_bytes(state), ..p.1 }))
                    },
                }
            }
        }
    }
}

/// Creates a lending market at its derived address.
///
/// Accounts: `{owner (signer), market (writable, empty), rent info, ..}`.
/// On success the returned pair is the drained payer and the written
/// market record; the host applies both or neither.
pub fn process_init_lending_market(
    accounts: &Vec<StagedAccount>,
    payload: &[u8],
    program_id: &[u8; 32],
    min_balance: u64,
) -> (r: Result<(StagedAccount, StagedAccount), LendError>)
    ensures
        (r is Ok) == (spec_process_init_lending_market(
            account_models(accounts@),
            payload@,
            program_id@,
            min_balance,
        ) is Ok),
        r matches Ok(e) ==> Ok::<_, LendError>((e.0@, e.1@)) == spec_process_init_lending_market(
            account_models(accounts@),
            payload@,
            program_id@,
            min_balance,
        ),
        r matches Err(e) ==> Err::<(AccountModel, AccountModel), _>(e)
            == spec_process_init_lending_market(
            account_models(accounts@),
            payload@,
            program_id@,
            min_balance,
        ),
{
    if accounts.len() < 3 {
        return Err(LendError::NotEnoughAccountKeys);
    }
    let payer = &accounts[0];
    let market = &accounts[1];
    if payload.len() != 96 {
        return Err(LendError::InvalidInstructionData);
    }
    if !payer.is_signer {
        return Err(LendError::MissingRequiredSignature);
    }
    if market.data.len() != 0 {
        return Err(LendError::AccountAlreadyInitialized);
    }
    let ix = InitLendingMarketIxData::from_bytes(payload)?;
    if !keys_equal(&ix.lending_market_owner, &payer.key) {
        return Err(LendError::InvalidAccountData);
    }
    let seeds = market_seeds(&ix.lending_market_owner);
    if !pda_matches(&market.key, &seeds, program_id) {
        return Err(LendError::InvalidSeeds);
    }
    let (new_payer, created) = create_pda_account(
        payer,
        market,
        LENDING_MARKET_LEN,
        min_balance,
        program_id,
    )?;
    let state = LendingMarketState::new(
        ix.lending_market_owner,
        ix.quote_currency,
        ix.risk_council,
    );
    let new_market = StagedAccount {
        key: created.key,
        lamports: created.lamports,
        owner: created.owner,
        data: state.to_bytes(),
        is_signer: created.is_signer,
    };
    proof {
        let s = spec_process_init_lending_market(
            account_models(accounts@),
            payload@,
            program_id@,
            min_balance,
        );
        assert(state@ =~= LendingMarketModel {
            version: 0u64,
            lending_market_owner: payload@.subrange(0, 32),
            quote_currency: payload@.subrange(32, 64),
            risk_council: payload@.subrange(64, 96),
            emergency_mode: 0u8,
        });
        assert(new_market@ =~= s->Ok_0.1);
    }
    Ok((new_payer, new_market))
}

/// What `UpdateLendingMarketOwner` stages: the market record rewritten
/// with its replacement owner, or the first failed check.
pub open spec fn spec_process_update_lending_market_owner(
    accounts: Seq<AccountModel>,
    payload: Seq<u8>,
) -> Result<AccountModel, LendError> {
    if accounts.len() < 2 {
        Err(LendError::NotEnoughAccountKeys)
    } else {
        let signer = accounts[0];
        let market = accounts[1];
        if payload.len() != 32 {
            Err(LendError::InvalidInstructionData)
        } else if !signer.is_signer {
            Err(LendError::MissingRequiredSignature)
        } else if market.data.len() != LENDING_MARKET_LEN {
            Err(LendError::InvalidAccountData)
        } else {
            let state = spec_decode_market(market.data);
            if signer.key != state.lending_market_owner {
                Err(LendError::IllegalOwner)
            } else {
                let updated = LendingMarketModel {
                    lending_market_owner: payload.subrange(0, 32),
                    ..state
                };
                Ok(AccountModel { data: spec_market_bytes(updated), ..market })
            }
        }
    }
}

/// Transfers a market's ownership to the payload address.
///
/// Accounts: `{current owner (signer), market (writable), ..}`.  Only the
/// recorded owner may transfer ownership.
pub fn process_update_lending_market_owner(
    accounts: &Vec<StagedAccount>,
    payload: &[u8],
) -> (r: Result<StagedAccount, LendError>)
    ensures
        (r is Ok) == (spec_process_update_lending_market_owner(
            account_models(accounts@),
            payload@,
        ) is Ok),
        r matches Ok(a) ==> Ok::<_, LendError>(a@) == spec_process_update_lending_market_owner(
            account_models(accounts@),
            payload@,
        ),
        r matches Err(e) ==> Err::<AccountModel, _>(e)
            == spec_process_update_lending_market_owner(account_models(accounts@), payload@),
{
    if accounts.len() < 2 {
        return Err(LendError::NotEnoughAccountKeys);
    }
    let signer = &accounts[0];
    let market = &accounts[1];
    if payload.len() != 32 {
        return Err(LendError::InvalidInstructionData);
    }
    if !signer.is_signer {
        return Err(LendError::MissingRequiredSignature);
    }
    let mut state = LendingMarketState::from_bytes(market.data.as_slice())?;
    if !keys_equal(&signer.key, &state.lending_market_owner) {
        return Err(LendError::IllegalOwner);
    }
    let ix = UpdateLendingMarketOwnerIxData::from_bytes(payload)?;
    state.lending_market_owner = ix.new_owner;
    let new_market = StagedAccount {
        key: market.key,
        lamports: market.lamports,
        owner: market.owner,
        data: state.to_bytes(),
        is_signer: market.is_signer,
    };
    proof {
        let s = spec_process_update_lending_market_owner(account_models(accounts@), payload@);
        assert(state@ =~= LendingMarketModel {
            lending_market_owner: payload@.subrange(0, 32),
            ..spec_decode_market(market@.data)
        });
        assert(new_market@ =~= s->Ok_0);
    }
    Ok(new_market)
}

/// What `UpdateRiskCouncil` stages: the market record rewritten with its
/// replacement risk council, or the first failed check.
pub open spec fn spec_process_update_risk_council(
    accounts: Seq<AccountModel>,
    payload: Seq<u8>,
) -> Result<AccountModel, LendError> {
    if accounts.len() < 2 {
        Err(LendError::NotEnoughAccountKeys)
    } else {
        let signer = accounts[0];
        let market = accounts[1];
        if payload.len() != 32 {
            Err(LendError::InvalidInstructionData)
        } else if !signer.is_signer {
            Err(LendError::MissingRequiredSignature)
        } else if market.data.len() != LENDING_MARKET_LEN {
            Err(LendError::InvalidAccountData)
        } else {
            let state = spec_decode_market(market.data);
            if signer.key != state.lending_market_owner {
                Err(LendError::IllegalOwner)
            } else {
                let updated = LendingMarketModel {
                    risk_council: payload.subrange(0, 32),
                    ..state
                };
                Ok(AccountModel { data: spec_market_bytes(updated), ..market })
            }
        }
    }
}

/// Rotates a market's risk council to the payload address.
///
/// Accounts: `{owner (signer), market (writable), ..}`.  Only the recorded
/// owner may rotate the council.
pub fn process_update_risk_council(accounts: &Vec<StagedAccount>, payload: &[u8]) -> (r: Result<
    StagedAccount,
    LendError,
>)
    ensures
        (r is Ok) == (spec_process_update_risk_council(account_models(accounts@), payload@) is Ok),
        r matches Ok(a) ==> Ok::<_, LendError>(a@) == spec_process_update_risk_council(
            account_models(accounts@),
            payload@,
        ),
        r matches Err(e) ==> Err::<AccountModel, _>(e) == spec_process_update_risk_council(
            account_models(accounts@),
            payload@,
        ),
{
    if accounts.len() < 2 {
        return Err(LendError::NotEnoughAccountKeys);
    }
    let signer = &accounts[0];
    let market = &accounts[1];
    if payload.len() != 32 {
        return Err(LendError::InvalidInstructionData);
    }
    if !signer.is_signer {
        return Err(LendError::MissingRequiredSignature);
    }
    let mut state = LendingMarketState::from_bytes(market.data.as_slice())?;
    if !keys_equal(&signer.key, &state.lending_market_owner) {
        return Err(LendError::IllegalOwner);
    }
    let ix = UpdateRiskCouncilIxData::from_bytes(payload)?;
    state.risk_council = ix.new_risk_council;
    let new_market = StagedAccount {
        key: market.key,
        lamports: market.lamports,
        owner: market.owner,
        data: state.to_bytes(),
        is_signer: market.is_signer,
    };
    proof {
        let s = spec_process_update_risk_council(account_models(accounts@), payload@);
        assert(state@ =~= LendingMarketModel {
            risk_council: payload@.subrange(0, 32),
            ..spec_decode_market(market@.data)
        });
        assert(new_market@ =~= s->Ok_0);
    }
    Ok(new_market)
}

/// What `SetEmergencyMode` stages: the market record rewritten with the
/// switch normalized to 0 or 1, or the first failed check.
pub open spec fn spec_process_set_emergency_mode(
    accounts: Seq<AccountModel>,
    payload: Seq<u8>,
) -> Result<AccountModel, LendError> {
    if accounts.len() < 2 {
        Err(LendError::NotEnoughAccountKeys)
    } else {
        let signer = accounts[0];
        let market = accounts[1];
        if payload.len() != 1 {
            Err(LendError::InvalidInstructionData)
        } else if !signer.is_signer {
            Err(LendError::MissingRequiredSignature)
        } else if market.data.len() != LENDING_MARKET_LEN {
            Err(LendError::InvalidAccountData)
        } else {
            let state = spec_decode_market(market.data);
            if signer.key != state.lending_market_owner && signer.key != state.risk_council {
                Err(LendError::IllegalOwner)
            } else {
                let updated = LendingMarketModel {
                    emergency_mode: if payload[0] != 0 {
                        1u8
                    } else {
                        0u8
                    },
                    ..state
                };
                Ok(AccountModel { data: spec_market_bytes(updated), ..market })
            }
        }
    }
}

/// Sets or clears a market's emergency mode.
///
/// Accounts: `{authority (signer), market (writable), ..}`.  The authority
/// must be the recorded owner or the risk council.
pub fn process_set_emergency_mode(accounts: &Vec<StagedAccount>, payload: &[u8]) -> (r: Result<
    StagedAccount,
    LendError,
>)
    ensures
        (r is Ok) == (spec_process_set_emergency_mode(account_models(accounts@), payload@) is Ok),
        r matches Ok(a) ==> Ok::<_, LendError>(a@) == spec_process_set_emergency_mode(
            account_models(accounts@),
            payload@,
        ),
        r matches Err(e) ==> Err::<AccountModel, _>(e) == spec_process_set_emergency_mode(
            account_models(accounts@),
            payload@,
        ),
{
    if accounts.len() < 2 {
        return Err(LendError::NotEnoughAccountKeys);
    }
    let signer = &accounts[0];
    let market = &accounts[1];
    if payload.len() != 1 {
        return Err(LendError::InvalidInstructionData);
    }
    if !signer.is_signer {
        return Err(LendError::MissingRequiredSignature);
    }
    let mut state = LendingMarketState::from_bytes(market.data.as_slice())?;
    let is_owner = keys_equal(&signer.key, &state.lending_market_owner);
    let is_council = keys_equal(&signer.key, &state.risk_council);
    if !is_owner && !is_council {
        return Err(LendError::IllegalOwner);
    }
    let ix = SetEmergencyModeIxData::from_bytes(payload)?;
    state.emergency_mode = if ix.enable != 0 {
        1
    } else {
        0
    };
    let new_market = StagedAccount {
        key: market.key,
        lamports: market.lamports,
        owner: market.owner,
        data: state.to_bytes(),
        is_signer: market.is_signer,
    };
    proof {
        let s = spec_process_set_emergency_mode(account_models(accounts@), payload@);
        assert(state@ =~= LendingMarketModel {
            emergency_mode: if payload@[0] != 0 {
                1u8
            } else {
                0u8
            },
            ..spec_decode_market(market@.data)
        });
        assert(new_market@ =~= s->Ok_0);
    }
    Ok(new_market)
}

} // verus!
