//! Reserve handlers: creation with a custody vault, enabling, disabling,
//! permanent closing, and liquidity supply.
//!
//! Each handler validates fully before staging anything.  Work that only
//! external services can perform — creating the vault and moving tokens —
//! is returned as an action value; the host performs it inside the same
//! atomic transaction that applies the staged writes.

use crate::account::{account_models, AccountModel, StagedAccount};
use crate::codec::{keys_equal, push_u16_le, push_u64_le, read_u16_le, read_u64_le};
use crate::errors::LendError;
use crate::lending_market::{spec_decode_market, LendingMarketState, LENDING_MARKET_LEN};
use crate::lifecycle::{create_pda_account, spec_create_pda_account};
use crate::pda::{
    pda_matches, reserve_seeds, spec_pda_matches, spec_reserve_seeds, spec_vault_seeds,
    vault_seeds,
};
use crate::reserve::{
    spec_decode_reserve, spec_new_reserve, spec_reserve_bytes, ReserveModel, ReserveState,
    RESERVE_LEN,
};
use vstd::bytes::{spec_u16_from_le_bytes, spec_u16_to_le_bytes, spec_u64_from_le_bytes, spec_u64_to_le_bytes};
use vstd::prelude::*;

verus! {

/// Byte size of an external token-custody account.
pub const TOKEN_ACCOUNT_LEN: u64 = 165;

/// Payload of `InitReserve`: risk parameters and caps.
#[derive(Clone, Copy, Debug, PartialEq, Eq)]
pub struct InitReserveIxData {
    /// Loan-to-value ratio in basis points.
    pub ltv: u16,
    /// Liquidation threshold in basis points.
    pub liquidation_threshold: u16,
    /// Liquidation bonus in basis points.
    pub liquidation_bonus: u16,
    /// Borrow cap; 0 means uncapped.
    pub borrow_cap: u64,
    /// Deposit cap; 0 means uncapped.
    pub deposit_cap: u64,
}

/// Payload of `EnableReserve`: empty.
#[derive(Clone, Copy, Debug, PartialEq, Eq)]
pub struct EnableReserveIxData {}

/// Payload of `DisableReserve`: empty.
#[derive(Clone, Copy, Debug, PartialEq, Eq)]
pub struct DisableReserveIxData {}

/// Payload of `CloseReserve`: empty.
#[derive(Clone, Copy, Debug, PartialEq, Eq)]
pub struct CloseReserveIxData {}

/// Payload of `SupplyLiquidity`: the deposit amount.
#[derive(Clone, Copy, Debug, PartialEq, Eq)]
pub struct SupplyLiquidityIxData {
    /// Token amount to move into the custody vault.
    pub amount: u64,
}

impl InitReserveIxData {
    /// Parses the 22-byte payload.
    pub fn from_bytes(payload: &[u8]) -> (r: Result<Self, LendError>)
        ensures
            r is Ok <==> payload@.len() == 22,
            r matches Ok(ix) ==> ix.ltv == spec_u16_from_le_bytes(payload@.subrange(0, 2))
                && ix.liquidation_threshold == spec_u16_from_le_bytes(payload@.subrange(2, 4))
                && ix.liquidation_bonus == spec_u16_from_le_bytes(payload@.subrange(4, 6))
                && ix.borrow_cap == spec_u64_from_le_bytes(payload@.subrange(6, 14))
                && ix.deposit_cap == spec_u64_from_le_bytes(payload@.subrange(14, 22)),
            r matches Err(e) ==> e == LendError::InvalidInstructionData,
    {
        if payload.len() != 22 {
            return Err(LendError::InvalidInstructionData);
        }
        Ok(
            Self {
                ltv: read_u16_le(payload, 0),
                liquidation_threshold: read_u16_le(payload, 2),
                liquidation_bonus: read_u16_le(payload, 4),
                borrow_cap: read_u64_le(payload, 6),
                deposit_cap: read_u64_le(payload, 14),
            },
        )
    }

    /// Serializes the payload as the wire format carries it.
    pub fn to_bytes(&self) -> (r: Vec<u8>)
        ensures
            r@ == spec_u16_to_le_bytes(self.ltv) + spec_u16_to_le_bytes(self.liquidation_threshold)
                + spec_u16_to_le_bytes(self.liquidation_bonus)
                + spec_u64_to_le_bytes(self.borrow_cap) + spec_u64_to_le_bytes(self.deposit_cap),
    {
        let mut out: Vec<u8> = Vec::new();
        push_u16_le(&mut out, self.ltv);
        push_u16_le(&mut out, self.liquidation_threshold);
        push_u16_le(&mut out, self.liquidation_bonus);
        push_u64_le(&mut out, self.borrow_cap);
        push_u64_le(&mut out, self.deposit_cap);
        proof {
            assert(out@ =~= spec_u16_to_le_bytes(self.ltv)
                + spec_u16_to_le_bytes(self.liquidation_threshold)
                + spec_u16_to_le_bytes(self.liquidation_bonus)
                + spec_u64_to_le_bytes(self.borrow_cap) + spec_u64_to_le_bytes(self.deposit_cap));
        }
        out
    }
}

impl SupplyLiquidityIxData {
    /// Parses the 8-byte payload.
    pub fn from_bytes(payload: &[u8]) -> (r: Result<Self, LendError>)
        ensures
            r is Ok <==> payload@.len() == 8,
            r matches Ok(ix) ==> ix.amount == spec_u64_from_le_bytes(payload@.subrange(0, 8)),
            r matches Err(e) ==> e == LendError::InvalidInstructionData,
    {
        if payload.len() != 8 {
            return Err(LendError::InvalidInstructionData);
        }
        Ok(Self { amount: read_u64_le(payload, 0) })
    }

    /// Serializes the payload as the wire format carries it.
    pub fn to_bytes(&self) -> (r: Vec<u8>)
        ensures
            r@ == spec_u64_to_le_bytes(self.amount),
    {
        let mut out: Vec<u8> = Vec::new();
        push_u64_le(&mut out, self.amount);
        proof {
            assert(out@ =~= spec_u64_to_le_bytes(self.amount));
        }
        out
    }
}

/// Mathematical image of a staged token transfer.
#[verifier::ext_equal]
pub struct TokenTransferModel {
    /// Source token account.
    pub from: Seq<u8>,
    /// Destination token account.
    pub to: Seq<u8>,
    /// The owner whose signature authorizes the move.
    pub authority: Seq<u8>,
    /// Token amount.
    pub amount: u64,
}

/// A token-service transfer the host must perform on success.
#[derive(Clone, Copy, Debug, PartialEq, Eq)]
pub struct TokenTransfer {
    /// Source token account.
    pub from: [u8; 32],
    /// Destination token account.
    pub to: [u8; 32],
    /// The owner whose signature authorizes the move.
    pub authority: [u8; 32],
    /// Token amount.
    pub amount: u64,
}

impl View for TokenTransfer {
    type V = TokenTransferModel;

    open spec fn view(&self) -> TokenTransferModel {
        TokenTransferModel {
            from: self.from@,
            to: self.to@,
            authority: self.authority@,
            amount: self.amount,
        }
    }
}

/// Mathematical image of a staged vault creation.
#[verifier::ext_equal]
pub struct VaultCreateModel {
    /// The payer funding the vault's minimum balance.
    pub payer: Seq<u8>,
    /// The vault's derived address.
    pub vault: Seq<u8>,
    /// Lamports to fund the vault with.
    pub lamports: u64,
    /// Byte size of the vault account.
    pub space: u64,
    /// The token service that will own the vault's storage.
    pub owner_program: Seq<u8>,
}

/// A vault-account creation the host must perform on success.
#[derive(Clone, Copy, Debug, PartialEq, Eq)]
pub struct VaultCreate {
    /// The payer funding the vault's minimum balance.
    pub payer: [u8; 32],
    /// The vault's derived address.
    pub vault: [u8; 32],
    /// Lamports to fund the vault with.
    pub lamports: u64,
    /// Byte size of the vault account.
    pub space: u64,
    /// The token service that will own the vault's storage.
    pub owner_program: [u8; 32],
}

impl View for VaultCreate {
    type V = VaultCreateModel;

    open spec fn view(&self) -> VaultCreateModel {
        VaultCreateModel {
            payer: self.payer@,
            vault: self.vault@,
            lamports: self.lamports,
            space: self.space,
            owner_program: self.owner_program@,
        }
    }
}

/// Mathematical image of a staged vault initialization.
#[verifier::ext_equal]
pub struct VaultInitModel {
    /// The vault account to initialize.
    pub vault: Seq<u8>,
    /// The mint the vault custodies.
    pub mint: Seq<u8>,
    /// The controlling authority: the reserve's derived address.
    pub authority: Seq<u8>,
}

/// A token-account initialization the host must perform on success.
#[derive(Clone, Copy, Debug, PartialEq, Eq)]
pub struct VaultInit {
    /// The vault account to initialize.
    pub vault: [u8; 32],
    /// The mint the vault custodies.
    pub mint: [u8; 32],
    /// The controlling authority: the reserve's derived address.
    pub authority: [u8; 32],
}

impl View for VaultInit {
    type V = VaultInitModel;

    open spec fn view(&self) -> VaultInitModel {
        VaultInitModel { vault: self.vault@, mint: self.mint@, authority: self.authority@ }
    }
}

/// Everything `InitReserve` stages: the drained payer, the written reserve
/// record and the two external vault actions.
#[derive(Clone, Debug)]
pub struct InitReserveEffect {
    /// The payer, drained by the reserve's minimum balance.
    pub payer: StagedAccount,
    /// The freshly written reserve record.
    pub reserve: StagedAccount,
    /// The vault-account creation to perform.
    pub vault_create: VaultCreate,
    /// The vault initialization to perform.
    pub vault_init: VaultInit,
}

/// What `InitReserve` stages, or the first failed check.
pub open spec fn spec_process_init_reserve(
    accounts: Seq<AccountModel>,
    payload: Seq<u8>,
    program_id: Seq<u8>,
    reserve_min_balance: u64,
    vault_min_balance: u64,
) -> Result<(AccountModel, AccountModel, VaultCreateModel, VaultInitModel), LendError> {
    if accounts.len() < 7 {
        Err(LendError::NotEnoughAccountKeys)
    } else {
        let payer = accounts[0];
        let reserve = accounts[1];
        let market = accounts[2];
        let mint = accounts[3];
        let vault = accounts[4];
        let token_program = accounts[5];
        if payload.len() != 22 {
            Err(LendError::InvalidInstructionData)
        } else if !payer.is_signer {
            Err(LendError::MissingRequiredSignature)
        } else if reserve.data.len() != 0 {
            Err(LendError::AccountAlreadyInitialized)
        } else if market.data.len() != LENDING_MARKET_LEN {
            Err(LendError::InvalidAccountData)
        } else if payer.key != spec_decode_market(market.data).lending_market_owner {
            Err(LendError::InvalidAccountData)
        } else if !spec_pda_matches(
            reserve.key,
            spec_reserve_seeds(market.key, mint.key),
            program_id,
        ) {
            Err(LendError::InvalidSeeds)
        } else {
            let ltv = spec_u16_from_le_bytes(payload.subrange(0, 2));
            let threshold = spec_u16_from_le_bytes(payload.subrange(2, 4));
            let bonus = spec_u16_from_le_bytes(payload.subrange(4, 6));
            let borrow_cap = spec_u64_from_le_bytes(payload.subrange(6, 14));
            let deposit_cap = spec_u64_from_le_bytes(payload.subrange(14, 22));
            if ltv > crate::BPS_MAX || threshold > crate::BPS_MAX || bonus > crate::LIQUIDATION_BONUS_MAX || ltv >= threshold {
                Err(LendError::InvalidInstructionData)
            } else {
                match spec_create_pda_account(
                    payer,
                    reserve,
                    RESERVE_LEN as nat,
                    reserve_min_balance,
                    program_id,
                ) {
                    Err(e) => Err(e),
                    Ok(p) => if !spec_pda_matches(
                        vault.key,
                        spec_vault_seeds(reserve.key),
                        program_id,
                    ) {
                        Err(LendError::InvalidSeeds)
                    } else if vault.data.len() != 0 {
                        Err(LendError::AccountAlreadyInitialized)
                    } else {
                        let state = spec_new_reserve(
                            market.key,
                            mint.key,
                            ltv,
                            threshold,
                            bonus,
                            borrow_cap,
                            deposit_cap,
                        );
                        Ok(
                            (
                                p.0,
                                AccountModel { data: spec_reserve_bytes(state), ..p.1 },
                                VaultCreateModel {
                                    payer: payer.key,
                                    vault: vault.key,
                                    lamports: vault_min_balance,
                                    space: TOKEN_ACCOUNT_LEN,
                                    owner_program: token_program.key,
                                },
                                VaultInitModel {
                                    vault: vault.key,
                                    mint: mint.key,
                                    authority: reserve.key,
                                },
                            ),
                        )
                    },
                }
            }
        }
    }
}

/// Creates a reserve bound to a market and a mint, with its custody vault.
///
/// Accounts: `{market owner (signer), reserve (writable, empty), market,
/// mint, vault (writable), token service, rent info, ..}`.  The risk
/// parameters must satisfy `ltv < liquidation_threshold <= 10000` and
/// `liquidation_bonus <= 2000`.  On success the reserve record starts
/// active with zeroed counters and unit indexes, and the vault actions
/// hand custody of the mint to the reserve's derived address.
pub fn process_init_reserve(
    accounts: &Vec<StagedAccount>,
    payload: &[u8],
    program_id: &[u8; 32],
    reserve_min_balance: u64,
    vault_min_balance: u64,
) -> (r: Result<InitReserveEffect, LendError>)
    ensures
        (r is Ok) == (spec_process_init_reserve(
            account_models(accounts@),
            payload@,
            program_id@,
            reserve_min_balance,
            vault_min_balance,
        ) is Ok),
        r matches Ok(e) ==> Ok::<_, LendError>(
            (e.payer@, e.reserve@, e.vault_create@, e.vault_init@),
        ) == spec_process_init_reserve(
            account_models(accounts@),
            payload@,
            program_id@,
            reserve_min_balance,
            vault_min_balance,
        ),
        r matches Err(e) ==> Err::<(AccountModel, AccountModel, VaultCreateModel, VaultInitModel), _>(
            e,
        ) == spec_process_init_reserve(
            account_models(accounts@),
            payload@,
            program_id@,
            reserve_min_balance,
            vault_min_balance,
        ),
{
    if accounts.len() < 7 {
        return Err(LendError::NotEnoughAccountKeys);
    }
    let payer = &accounts[0];
    let reserve = &accounts[1];
    let market = &accounts[2];
    let mint = &accounts[3];
    let vault = &accounts[4];
    let token_program = &accounts[5];
    if payload.len() != 22 {
        return Err(LendError::InvalidInstructionData);
    }
    if !payer.is_signer {
        return Err(LendError::MissingRequiredSignature);
    }
    if reserve.data.len() != 0 {
        return Err(LendError::AccountAlreadyInitialized);
    }
    let market_state = LendingMarketState::from_bytes(market.data.as_slice())?;
    if !keys_equal(&payer.key, &market_state.lending_market_owner) {
        return Err(LendError::InvalidAccountData);
    }
    let r_seeds = reserve_seeds(&market.key, &mint.key);
    if !pda_matches(&reserve.key, &r_seeds, program_id) {
        return Err(LendError::InvalidSeeds);
    }
    let ix = InitReserveIxData::from_bytes(payload)?;
    if ix.ltv > crate::BPS_MAX || ix.liquidation_threshold > crate::BPS_MAX
        || ix.liquidation_bonus > crate::LIQUIDATION_BONUS_MAX
        || ix.ltv >= ix.liquidation_threshold {
        return Err(LendError::InvalidInstructionData);
    }
    let (new_payer, created) = create_pda_account(
        payer,
        reserve,
        RESERVE_LEN,
        reserve_min_balance,
        program_id,
    )?;
    let v_seeds = vault_seeds(&reserve.key);
    if !pda_matches(&vault.key, &v_seeds, program_id) {
        return Err(LendError::InvalidSeeds);
    }
    if vault.data.len() != 0 {
        return Err(LendError::AccountAlreadyInitialized);
    }
    let state = ReserveState::new(
        market.key,
        mint.key,
        ix.ltv,
        ix.liquidation_threshold,
        ix.liquidation_bonus,
        ix.borrow_cap,
        ix.deposit_cap,
    );
    let new_reserve = StagedAccount {
        key: created.key,
        lamports: created.lamports,
        owner: created.owner,
        data: state.to_bytes(),
        is_signer: created.is_signer,
    };
    let vault_create = VaultCreate {
        payer: payer.key,
        vault: vault.key,
        lamports: vault_min_balance,
        space: TOKEN_ACCOUNT_LEN,
        owner_program: token_program.key,
    };
    let vault_init = VaultInit { vault: vault.key, mint: mint.key, authority: reserve.key };
    proof {
        let s = spec_process_init_reserve(
            account_models(accounts@),
            payload@,
            program_id@,
            reserve_min_balance,
            vault_min_balance,
        );
        assert(new_reserve@ =~= s->Ok_0.1);
        assert(vault_create@ =~= s->Ok_0.2);
        assert(vault_init@ =~= s->Ok_0.3);
    }
    Ok(InitReserveEffect { payer: new_payer, reserve: new_reserve, vault_create, vault_init })
}

/// Shared authority and cross-reference checks of the enable, disable and
/// close handlers: the staged market and reserve of the account list, with
/// the reserve's decoded record, after every check that the three handlers
/// have in common.
pub open spec fn spec_reserve_gate(
    authority: AccountModel,
    reserve: AccountModel,
    market: AccountModel,
    payload: Seq<u8>,
    program_id: Seq<u8>,
    owner_only: bool,
) -> Result<ReserveModel, LendError> {
    if payload.len() != 0 {
        Err(LendError::InvalidInstructionData)
    } else if !authority.is_signer {
        Err(LendError::MissingRequiredSignature)
    } else if market.data.len() != LENDING_MARKET_LEN {
        Err(LendError::InvalidAccountData)
    } else {
        let market_state = spec_decode_market(market.data);
        let authorized = if owner_only {
            authority.key == market_state.lending_market_owner
        } else {
            authority.key == market_state.lending_market_owner || authority.key
                == market_state.risk_council
        };
        if !authorized {
            Err(LendError::IllegalOwner)
        } else if reserve.owner != program_id {
            Err(LendError::IllegalOwner)
        } else if reserve.data.len() != RESERVE_LEN {
            Err(LendError::InvalidAccountData)
        } else {
            Ok(spec_decode_reserve(reserve.data))
        }
    }
}

/// What `EnableReserve` stages: the reserve record reactivated, or the
/// first failed check.
pub open spec fn spec_process_enable_reserve(
    accounts: Seq<AccountModel>,
    payload: Seq<u8>,
    program_id: Seq<u8>,
) -> Result<AccountModel, LendError> {
    if accounts.len() < 3 {
        Err(LendError::NotEnoughAccountKeys)
    } else {
        match spec_reserve_gate(accounts[0], accounts[1], accounts[2], payload, program_id, false) {
            Err(e) => Err(e),
            Ok(state) => if state.is_closed == 1 {
                Err(LendError::InvalidAccountData)
            } else if state.lending_market != accounts[2].key {
                Err(LendError::InvalidAccountData)
            } else if state.allow_deposits == 0 && state.allow_borrows == 0 {
                Err(LendError::InvalidAccountData)
            } else {
                Ok(
                    AccountModel {
                        data: spec_reserve_bytes(ReserveModel { is_active: 1u8, ..state }),
                        ..accounts[1]
                    },
                )
            },
        }
    }
}

/// What `DisableReserve` stages: the reserve record deactivated, or the
/// first failed check.
pub open spec fn spec_process_disable_reserve(
    accounts: Seq<AccountModel>,
    payload: Seq<u8>,
    program_id: Seq<u8>,
) -> Result<AccountModel, LendError> {
    if accounts.len() < 3 {
        Err(LendError::NotEnoughAccountKeys)
    } else {
        match spec_reserve_gate(accounts[0], accounts[1], accounts[2], payload, program_id, false) {
            Err(e) => Err(e),
            Ok(state) => if state.is_closed == 1 {
                Err(LendError::InvalidAccountData)
            } else if state.lending_market != accounts[2].key {
                Err(LendError::InvalidAccountData)
            } else {
                Ok(
                    AccountModel {
                        data: spec_reserve_bytes(ReserveModel { is_active: 0u8, ..state }),
                        ..accounts[1]
                    },
                )
            },
        }
    }
}

/// What `CloseReserve` stages: the reserve record closed for good with all
/// operation flags forced off, or the first failed check.
pub open spec fn spec_process_close_reserve(
    accounts: Seq<AccountModel>,
    payload: Seq<u8>,
    program_id: Seq<u8>,
) -> Result<AccountModel, LendError> {
    if accounts.len() < 3 {
        Err(LendError::NotEnoughAccountKeys)
    } else {
        match spec_reserve_gate(accounts[0], accounts[1], accounts[2], payload, program_id, true) {
            Err(e) => Err(e),
            Ok(state) => if state.is_closed == 1 {
                Err(LendError::AccountAlreadyInitialized)
            } else if state.lending_market != accounts[2].key {
                Err(LendError::InvalidAccountData)
            } else if state.available_liquidity != 0 {
                Err(LendError::InvalidAccountData)
            } else if state.total_borrows != 0 {
                Err(LendError::InvalidAccountData)
            } else {
                Ok(
                    AccountModel {
                        data: spec_reserve_bytes(
                            ReserveModel {
                                is_closed: 1u8,
                                is_active: 0u8,
                                allow_deposits: 0u8,
                                allow_borrows: 0u8,
                                ..state
                            },
                        ),
                        ..accounts[1]
                    },
                )
            },
        }
    }
}

/// Runs the checks the enable, disable and close handlers share and hands
/// back the decoded reserve record.
fn reserve_gate(
    authority: &StagedAccount,
    reserve: &StagedAccount,
    market: &StagedAccount,
    payload: &[u8],
    program_id: &[u8; 32],
    owner_only: bool,
) -> (r: Result<ReserveState, LendError>)
    ensures
        (r is Ok) == (spec_reserve_gate(
            authority@,
            reserve@,
            market@,
            payload@,
            program_id@,
            owner_only,
        ) is Ok),
        r matches Ok(state) ==> Ok::<_, LendError>(state@) == spec_reserve_gate(
            authority@,
            reserve@,
            market@,
            payload@,
            program_id@,
            owner_only,
        ),
        r matches Err(e) ==> Err::<ReserveModel, _>(e) == spec_reserve_gate(
            authority@,
            reserve@,
            market@,
            payload@,
            program_id@,
            owner_only,
        ),
{
    if payload.len() != 0 {
        return Err(LendError::InvalidInstructionData);
    }
    if !authority.is_signer {
        return Err(LendError::MissingRequiredSignature);
    }
    let market_state = LendingMarketState::from_bytes(market.data.as_slice())?;
    let is_owner = keys_equal(&authority.key, &market_state.lending_market_owner);
    let authorized = if owner_only {
        is_owner
    } else {
        is_owner || keys_equal(&authority.key, &market_state.risk_council)
    };
    if !authorized {
        return Err(LendError::IllegalOwner);
    }
    if !keys_equal(&reserve.owner, program_id) {
        return Err(LendError::IllegalOwner);
    }
    ReserveState::from_bytes(reserve.data.as_slice())
}

/// Reactivates a reserve.
///
/// Accounts: `{authority (signer), reserve (writable), market, ..}`.  The
/// authority must be the market owner or the risk council; a closed
/// reserve, or one with both deposits and borrows disallowed, is refused.
pub fn process_enable_reserve(
    accounts: &Vec<StagedAccount>,
    payload: &[u8],
    program_id: &[u8; 32],
) -> (r: Result<StagedAccount, LendError>)
    ensures
        (r is Ok) == (spec_process_enable_reserve(
            account_models(accounts@),
            payload@,
            program_id@,
        ) is Ok),
        r matches Ok(a) ==> Ok::<_, LendError>(a@) == spec_process_enable_reserve(
            account_models(accounts@),
            payload@,
            program_id@,
        ),
        r matches Err(e) ==> Err::<AccountModel, _>(e) == spec_process_enable_reserve(
            account_models(accounts@),
            payload@,
            program_id@,
        ),
{
    if accounts.len() < 3 {
        return Err(LendError::NotEnoughAccountKeys);
    }
    let authority = &accounts[0];
    let reserve = &accounts[1];
    let market = &accounts[2];
    let mut state = reserve_gate(authority, reserve, market, payload, program_id, false)?;
    if state.is_closed() {
        return Err(LendError::InvalidAccountData);
    }
    if !keys_equal(&state.lending_market, &market.key) {
        return Err(LendError::InvalidAccountData);
    }
    if state.allow_deposits == 0 && state.allow_borrows == 0 {
        return Err(LendError::InvalidAccountData);
    }
    state.is_active = 1;
    let new_reserve = StagedAccount {
        key: reserve.key,
        lamports: reserve.lamports,
        owner: reserve.owner,
        data: state.to_bytes(),
        is_signer: reserve.is_signer,
    };
    proof {
        let s = spec_process_enable_reserve(account_models(accounts@), payload@, program_id@);
        assert(state@ =~= ReserveModel {
            is_active: 1u8,
            ..spec_decode_reserve(reserve@.data)
        });
        assert(new_reserve@ =~= s->Ok_0);
    }
    Ok(new_reserve)
}

/// Deactivates a reserve.
///
/// Accounts: `{authority (signer), reserve (writable), market, ..}`.  The
/// authority must be the market owner or the risk council; a closed
/// reserve is refused.
pub fn process_disable_reserve(
    accounts: &Vec<StagedAccount>,
    payload: &[u8],
    program_id: &[u8; 32],
) -> (r: Result<StagedAccount, LendError>)
    ensures
        (r is Ok) == (spec_process_disable_reserve(
            account_models(accounts@),
            payload@,
            program_id@,
        ) is Ok),
        r matches Ok(a) ==> Ok::<_, LendError>(a@) == spec_process_disable_reserve(
            account_models(accounts@),
            payload@,
            program_id@,
        ),
        r matches Err(e) ==> Err::<AccountModel, _>(e) == spec_process_disable_reserve(
            account_models(accounts@),
            payload@,
            program_id@,
        ),
{
    if accounts.len() < 3 {
        return Err(LendError::NotEnoughAccountKeys);
    }
    let authority = &accounts[0];
    let reserve = &accounts[1];
    let market = &accounts[2];
    let mut state = reserve_gate(authority, reserve, market, payload, program_id, false)?;
    if state.is_closed() {
        return Err(LendError::InvalidAccountData);
    }
    if !keys_equal(&state.lending_market, &market.key) {
        return Err(LendError::InvalidAccountData);
    }
    state.is_active = 0;
    let new_reserve = StagedAccount {
        key: reserve.key,
        lamports: reserve.lamports,
        owner: reserve.owner,
        data: state.to_bytes(),
        is_signer: reserve.is_signer,
    };
    proof {
        let s = spec_process_disable_reserve(account_models(accounts@), payload@, program_id@);
        assert(state@ =~= ReserveModel {
            is_active: 0u8,
            ..spec_decode_reserve(reserve@.data)
        });
        assert(new_reserve@ =~= s->Ok_0);
    }
    Ok(new_reserve)
}

/// Permanently closes a reserve.
///
/// Accounts: `{market owner (signer), reserve (writable), market, ..}`.
/// Only the market owner may close; the reserve must hold no liquidity and
/// no borrows and must not already be closed.  Afterwards every operation
/// flag is forced off, for good.
pub fn process_close_reserve(
    accounts: &Vec<StagedAccount>,
    payload: &[u8],
    program_id: &[u8; 32],
) -> (r: Result<StagedAccount, LendError>)
    ensures
        (r is Ok) == (spec_process_close_reserve(
            account_models(accounts@),
            payload@,
            program_id@,
        ) is Ok),
        r matches Ok(a) ==> Ok::<_, LendError>(a@) == spec_process_close_reserve(
            account_models(accounts@),
            payload@,
            program_id@,
        ),
        r matches Err(e) ==> Err::<AccountModel, _>(e) == spec_process_close_reserve(
            account_models(accounts@),
            payload@,
            program_id@,
        ),
{
    if accounts.len() < 3 {
        return Err(LendError::NotEnoughAccountKeys);
    }
    let authority = &accounts[0];
    let reserve = &accounts[1];
    let market = &accounts[2];
    let mut state = reserve_gate(authority, reserve, market, payload, program_id, true)?;
    if state.is_closed() {
        return Err(LendError::AccountAlreadyInitialized);
    }
    if !keys_equal(&state.lending_market, &market.key) {
        return Err(LendError::InvalidAccountData);
    }
    if state.available_liquidity != 0 {
        return Err(LendError::InvalidAccountData);
    }
    if state.total_borrows != 0 {
        return Err(LendError::InvalidAccountData);
    }
    state.is_closed = 1;
    state.is_active = 0;
    state.allow_deposits = 0;
    state.allow_borrows = 0;
    let new_reserve = StagedAccount {
        key: reserve.key,
        lamports: reserve.lamports,
        owner: reserve.owner,
        data: state.to_bytes(),
        is_signer: reserve.is_signer,
    };
    proof {
        let s = spec_process_close_reserve(account_models(accounts@), payload@, program_id@);
        assert(state@ =~= ReserveModel {
            is_closed: 1u8,
            is_active: 0u8,
            allow_deposits: 0u8,
            allow_borrows: 0u8,
            ..spec_decode_reserve(reserve@.data)
        });
        assert(new_reserve@ =~= s->Ok_0);
    }
    Ok(new_reserve)
}

/// What `SupplyLiquidity` stages: the reserve record with both counters
/// grown by the amount, and the token transfer to perform, or the first
/// failed check.
pub open spec fn spec_process_supply_liquidity(
    accounts: Seq<AccountModel>,
    payload: Seq<u8>,
    program_id: Seq<u8>,
) -> Result<(AccountModel, TokenTransferModel), LendError> {
    if accounts.len() < 5 {
        Err(LendError::NotEnoughAccountKeys)
    } else {
        let user = accounts[0];
        let user_token_account = accounts[1];
        let reserve = accounts[2];
        let vault = accounts[3];
        if payload.len() != 8 {
            Err(LendError::InvalidInstructionData)
        } else if !user.is_signer {
            Err(LendError::MissingRequiredSignature)
        } else {
            let amount = spec_u64_from_le_bytes(payload.subrange(0, 8));
            if amount == 0 {
                Err(LendError::InvalidInstructionData)
            } else if reserve.owner != program_id {
                Err(LendError::IllegalOwner)
            } else if reserve.data.len() != RESERVE_LEN {
                Err(LendError::InvalidAccountData)
            } else {
                let state = spec_decode_reserve(reserve.data);
                if state.is_active != 1 {
                    Err(LendError::InvalidAccountData)
                } else if state.is_closed == 1 {
                    Err(LendError::InvalidAccountData)
                } else if state.allow_deposits != 1 {
                    Err(LendError::InvalidAccountData)
                } else if state.total_supply + amount > u64::MAX {
                    Err(LendError::ArithmeticOverflow)
                } else if state.deposit_cap > 0 && state.total_supply + amount
                    > state.deposit_cap {
                    Err(LendError::InvalidInstructionData)
                } else if !spec_pda_matches(vault.key, spec_vault_seeds(reserve.key), program_id) {
                    Err(LendError::InvalidSeeds)
                } else if state.available_liquidity + amount > u64::MAX {
                    Err(LendError::ArithmeticOverflow)
                } else {
                    let updated = ReserveModel {
                        available_liquidity: (state.available_liquidity + amount) as u64,
                        total_supply: (state.total_supply + amount) as u64,
                        ..state
                    };
                    Ok(
                        (
                            AccountModel { data: spec_reserve_bytes(updated), ..reserve },
                            TokenTransferModel {
                                from: user_token_account.key,
                                to: vault.key,
                                authority: user.key,
                                amount: amount,
                            },
                        ),
                    )
                }
            }
        }
    }
}

/// Deposits liquidity into a reserve.
///
/// Accounts: `{user (signer), user token account, reserve (writable),
/// reserve vault, token service, ..}`.  The reserve must be active, open
/// for deposits and not closed; the deposit cap is inclusive, so a deposit
/// landing exactly on the cap succeeds.  On success the returned transfer
/// moves the amount into the custody vault under the user's authority, and
/// both liquidity counters grow by exactly the amount.
pub fn process_supply_liquidity(
    accounts: &Vec<StagedAccount>,
    payload: &[u8],
    program_id: &[u8; 32],
) -> (r: Result<(StagedAccount, TokenTransfer), LendError>)
    ensures
        (r is Ok) == (spec_process_supply_liquidity(
            account_models(accounts@),
            payload@,
            program_id@,
        ) is Ok),
        r matches Ok(e) ==> Ok::<_, LendError>((e.0@, e.1@)) == spec_process_supply_liquidity(
            account_models(accounts@),
            payload@,
            program_id@,
        ),
        r matches Err(e) ==> Err::<(AccountModel, TokenTransferModel), _>(e)
            == spec_process_supply_liquidity(account_models(accounts@), payload@, program_id@),
{
    if accounts.len() < 5 {
        return Err(LendError::NotEnoughAccountKeys);
    }
    let user = &accounts[0];
    let user_token_account = &accounts[1];
    let reserve = &accounts[2];
    let vault = &accounts[3];
    if payload.len() != 8 {
        return Err(LendError::InvalidInstructionData);
    }
    if !user.is_signer {
        return Err(LendError::MissingRequiredSignature);
    }
    let ix = SupplyLiquidityIxData::from_bytes(payload)?;
    let amount = ix.amount;
    if amount == 0 {
        return Err(LendError::InvalidInstructionData);
    }
    if !keys_equal(&reserve.owner, program_id) {
        return Err(LendError::IllegalOwner);
    }
    let mut state = ReserveState::from_bytes(reserve.data.as_slice())?;
    if !state.is_active() {
        return Err(LendError::InvalidAccountData);
    }
    if state.is_closed() {
        return Err(LendError::InvalidAccountData);
    }
    if !state.allows_deposits() {
        return Err(LendError::InvalidAccountData);
    }
    if state.total_supply > u64::MAX - amount {
        return Err(LendError::ArithmeticOverflow);
    }
    let new_total_supply = state.total_supply + amount;
    if state.deposit_cap > 0 && new_total_supply > state.deposit_cap {
        return Err(LendError::InvalidInstructionData);
    }
    let v_seeds = vault_seeds(&reserve.key);
    if !pda_matches(&vault.key, &v_seeds, program_id) {
        return Err(LendError::InvalidSeeds);
    }
    if state.available_liquidity > u64::MAX - amount {
        return Err(LendError::ArithmeticOverflow);
    }
    state.available_liquidity = state.available_liquidity + amount;
    state.total_supply = new_total_supply;
    let new_reserve = StagedAccount {
        key: reserve.key,
        lamports: reserve.lamports,
        owner: reserve.owner,
        data: state.to_bytes(),
        is_signer: reserve.is_signer,
    };
    let transfer = TokenTransfer {
        from: user_token_account.key,
        to: vault.key,
        authority: user.key,
        amount,
    };
    proof {
        let s = spec_process_supply_liquidity(account_models(accounts@), payload@, program_id@);
        assert(state@ =~= ReserveModel {
            available_liquidity: (spec_decode_reserve(reserve@.data).available_liquidity
                + amount) as u64,
            total_supply: (spec_decode_reserve(reserve@.data).total_supply + amount) as u64,
            ..spec_decode_reserve(reserve@.data)
        });
        assert(new_reserve@ =~= s->Ok_0.0);
        assert(transfer@ =~= s->Ok_0.1);
    }
    Ok((new_reserve, transfer))
}

} // verus!
