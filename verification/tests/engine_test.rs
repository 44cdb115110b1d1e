use plend::account::StagedAccount;
use plend::envelope::{ensure_payload_len, parse_instruction, PlendInstructions};
use plend::errors::LendError;
use plend::lending_market::{LendingMarketState, LENDING_MARKET_LEN};
use plend::lifecycle::{close_account, create_pda_account};
use plend::market_instructions::{
    process_init_lending_market, process_set_emergency_mode, process_update_risk_council,
    InitLendingMarketIxData, SetEmergencyModeIxData, UpdateRiskCouncilIxData,
};
use plend::obligation::{ObligationState, OBLIGATION_LEN};
use plend::obligation_instructions::{process_init_obligation, InitObligationIxData};
use plend::pda::{find_program_address, market_seeds, obligation_seeds, reserve_seeds, vault_seeds};
use plend::reserve::{ReserveState, RESERVE_LEN};
use plend::reserve_instructions::{
    process_init_reserve, process_supply_liquidity, InitReserveIxData, SupplyLiquidityIxData,
};

const PROGRAM_ID: [u8; 32] = [7u8; 32];
const TOKEN_PROGRAM_KEY: [u8; 32] = [8u8; 32];
const RENT_KEY: [u8; 32] = [3u8; 32];
const MIN_BALANCE: u64 = 2_282_880;
const VAULT_MIN_BALANCE: u64 = 2_039_280;

fn system_account(key: [u8; 32]) -> StagedAccount {
    StagedAccount { key, lamports: 0, owner: [0u8; 32], data: Vec::new(), is_signer: false }
}

fn signer_account(key: [u8; 32], lamports: u64) -> StagedAccount {
    StagedAccount { key, lamports, owner: [0u8; 32], data: Vec::new(), is_signer: true }
}

struct MarketCtx {
    program_id: [u8; 32],
    owner_key: [u8; 32],
    council_key: [u8; 32],
    market: StagedAccount,
}

fn initialize_lending_market() -> MarketCtx {
    let program_id = PROGRAM_ID;
    let owner_key = [1u8; 32];
    let council_key = [2u8; 32];
    let seeds = market_seeds(&owner_key);
    let (market_key, _bump) =
        find_program_address(&seeds, &program_id).expect("derivation should find a bump");
    let accounts = vec![
        signer_account(owner_key, 1_000_000_000),
        system_account(market_key),
        system_account(RENT_KEY),
    ];
    let ix = InitLendingMarketIxData {
        lending_market_owner: owner_key,
        quote_currency: [42u8; 32],
        risk_council: council_key,
    };
    let (_payer, market) =
        process_init_lending_market(&accounts, &ix.to_bytes(), &program_id, MIN_BALANCE)
            .expect("initialization transaction failed");
    MarketCtx { program_id, owner_key, council_key, market }
}

fn market_init_accounts(owner_key: [u8; 32], market_key: [u8; 32]) -> Vec<StagedAccount> {
    vec![
        signer_account(owner_key, 1_000_000_000),
        system_account(market_key),
        system_account(RENT_KEY),
    ]
}

#[test]
fn test_instruction_discriminants() {
    let all = [
        PlendInstructions::InitLendingMarket,
        PlendInstructions::UpdateLendingMarketOwner,
        PlendInstructions::SetEmergencyMode,
        PlendInstructions::UpdateRiskCouncil,
        PlendInstructions::InitReserve,
        PlendInstructions::EnableReserve,
        PlendInstructions::DisableReserve,
        PlendInstructions::CloseReserve,
        PlendInstructions::SupplyLiquidity,
    ];
    for (expected, ix) in all.iter().enumerate() {
        assert_eq!(ix.discriminant(), expected as u8);
        assert_eq!(PlendInstructions::try_from(expected as u8).unwrap(), *ix);
    }
    assert_eq!(PlendInstructions::try_from(9), Err(LendError::InvalidInstructionData));
    assert_eq!(PlendInstructions::try_from(255), Err(LendError::InvalidInstructionData));
}

#[test]
fn test_payload_lengths() {
    assert_eq!(PlendInstructions::InitLendingMarket.payload_len(), 96);
    assert_eq!(PlendInstructions::UpdateLendingMarketOwner.payload_len(), 32);
    assert_eq!(PlendInstructions::SetEmergencyMode.payload_len(), 1);
    assert_eq!(PlendInstructions::UpdateRiskCouncil.payload_len(), 32);
    assert_eq!(PlendInstructions::InitReserve.payload_len(), 22);
    assert_eq!(PlendInstructions::EnableReserve.payload_len(), 0);
    assert_eq!(PlendInstructions::DisableReserve.payload_len(), 0);
    assert_eq!(PlendInstructions::CloseReserve.payload_len(), 0);
    assert_eq!(PlendInstructions::SupplyLiquidity.payload_len(), 8);
    assert!(ensure_payload_len(&[0u8; 8], 8).is_ok());
    assert_eq!(ensure_payload_len(&[0u8; 7], 8), Err(LendError::InvalidInstructionData));
}

#[test]
fn test_envelope_parse() {
    // A supply instruction: discriminant 8 followed by a little-endian
    // amount of exactly eight bytes.
    let mut data: Vec<u8> = vec![8];
    data.extend_from_slice(&SupplyLiquidityIxData { amount: 500_000 }.to_bytes());
    let (instruction, payload) = parse_instruction(&PROGRAM_ID, &PROGRAM_ID, &data).unwrap();
    assert_eq!(instruction, PlendInstructions::SupplyLiquidity);
    assert_eq!(payload.len(), 8);
    assert_eq!(SupplyLiquidityIxData::from_bytes(payload).unwrap().amount, 500_000);

    let wrong_program = [9u8; 32];
    assert_eq!(
        parse_instruction(&wrong_program, &PROGRAM_ID, &data),
        Err(LendError::IncorrectProgramId)
    );
    assert_eq!(
        parse_instruction(&PROGRAM_ID, &PROGRAM_ID, &[]),
        Err(LendError::InvalidInstructionData)
    );
    assert_eq!(
        parse_instruction(&PROGRAM_ID, &PROGRAM_ID, &[77u8, 0u8]),
        Err(LendError::InvalidInstructionData)
    );
    assert_eq!(
        parse_instruction(&PROGRAM_ID, &PROGRAM_ID, &data[..6]),
        Err(LendError::InvalidInstructionData)
    );
}

#[test]
fn test_market_codec_round_trip() {
    let state = LendingMarketState::new([5u8; 32], [6u8; 32], [9u8; 32]);
    let bytes = state.to_bytes();
    assert_eq!(bytes.len(), LENDING_MARKET_LEN);
    let back = LendingMarketState::from_bytes(bytes.as_slice()).unwrap();
    assert_eq!(back, state);
    assert!(LendingMarketState::from_bytes(&bytes[1..]).is_err());
}

#[test]
fn test_reserve_codec_round_trip() {
    let mut state = ReserveState::new([5u8; 32], [6u8; 32], 8000, 8500, 500, 10, 20);
    state.available_liquidity = 77;
    state.total_supply = 99;
    state.last_update_timestamp = -12345;
    let bytes = state.to_bytes();
    assert_eq!(bytes.len(), RESERVE_LEN);
    let back = ReserveState::from_bytes(bytes.as_slice()).unwrap();
    assert_eq!(back, state);
    assert!(ReserveState::from_bytes(&bytes[..RESERVE_LEN - 1]).is_err());
}

#[test]
fn test_derivation_is_deterministic() {
    let seeds = market_seeds(&[1u8; 32]);
    let first = find_program_address(&seeds, &PROGRAM_ID).unwrap();
    let second = find_program_address(&seeds, &PROGRAM_ID).unwrap();
    assert_eq!(first, second);
    // The derived address is a digest of the whole seed tuple, not any
    // single seed handed back.
    assert_ne!(first.0, [1u8; 32]);
    let other_seeds = market_seeds(&[2u8; 32]);
    assert_ne!(find_program_address(&other_seeds, &PROGRAM_ID).unwrap().0, first.0);
}

#[test]
fn test_init_market_requires_enough_accounts() {
    let owner_key = [1u8; 32];
    let ix = InitLendingMarketIxData {
        lending_market_owner: owner_key,
        quote_currency: [42u8; 32],
        risk_council: [2u8; 32],
    };
    let accounts = vec![signer_account(owner_key, 1_000_000_000), system_account([4u8; 32])];
    let err = process_init_lending_market(&accounts, &ix.to_bytes(), &PROGRAM_ID, MIN_BALANCE)
        .unwrap_err();
    assert_eq!(err, LendError::NotEnoughAccountKeys);
}

#[test]
fn test_init_market_requires_signature() {
    let owner_key = [1u8; 32];
    let (market_key, _) = find_program_address(&market_seeds(&owner_key), &PROGRAM_ID).unwrap();
    let mut accounts = market_init_accounts(owner_key, market_key);
    accounts[0].is_signer = false;
    let ix = InitLendingMarketIxData {
        lending_market_owner: owner_key,
        quote_currency: [42u8; 32],
        risk_council: [2u8; 32],
    };
    let err = process_init_lending_market(&accounts, &ix.to_bytes(), &PROGRAM_ID, MIN_BALANCE)
        .unwrap_err();
    assert_eq!(err, LendError::MissingRequiredSignature);
}

#[test]
fn test_init_market_rejects_foreign_owner_payload() {
    let owner_key = [1u8; 32];
    let (market_key, _) = find_program_address(&market_seeds(&owner_key), &PROGRAM_ID).unwrap();
    let accounts = market_init_accounts(owner_key, market_key);
    let ix = InitLendingMarketIxData {
        lending_market_owner: [66u8; 32], // not the signer
        quote_currency: [42u8; 32],
        risk_council: [2u8; 32],
    };
    let err = process_init_lending_market(&accounts, &ix.to_bytes(), &PROGRAM_ID, MIN_BALANCE)
        .unwrap_err();
    assert_eq!(err, LendError::InvalidAccountData);
}

#[test]
fn test_init_market_rejects_wrong_address() {
    let owner_key = [1u8; 32];
    let accounts = market_init_accounts(owner_key, [66u8; 32]);
    let ix = InitLendingMarketIxData {
        lending_market_owner: owner_key,
        quote_currency: [42u8; 32],
        risk_council: [2u8; 32],
    };
    let err = process_init_lending_market(&accounts, &ix.to_bytes(), &PROGRAM_ID, MIN_BALANCE)
        .unwrap_err();
    assert_eq!(err, LendError::InvalidSeeds);
}

#[test]
fn test_init_market_requires_funds() {
    let owner_key = [1u8; 32];
    let (market_key, _) = find_program_address(&market_seeds(&owner_key), &PROGRAM_ID).unwrap();
    let mut accounts = market_init_accounts(owner_key, market_key);
    accounts[0].lamports = MIN_BALANCE - 1;
    let ix = InitLendingMarketIxData {
        lending_market_owner: owner_key,
        quote_currency: [42u8; 32],
        risk_council: [2u8; 32],
    };
    let err = process_init_lending_market(&accounts, &ix.to_bytes(), &PROGRAM_ID, MIN_BALANCE)
        .unwrap_err();
    assert_eq!(err, LendError::InsufficientFunds);
}

#[test]
fn test_init_market_moves_minimum_balance() {
    let owner_key = [1u8; 32];
    let (market_key, _) = find_program_address(&market_seeds(&owner_key), &PROGRAM_ID).unwrap();
    let accounts = market_init_accounts(owner_key, market_key);
    let ix = InitLendingMarketIxData {
        lending_market_owner: owner_key,
        quote_currency: [42u8; 32],
        risk_council: [2u8; 32],
    };
    let (payer, market) =
        process_init_lending_market(&accounts, &ix.to_bytes(), &PROGRAM_ID, MIN_BALANCE).unwrap();
    assert_eq!(payer.lamports, 1_000_000_000 - MIN_BALANCE);
    assert_eq!(market.lamports, MIN_BALANCE);
    assert_eq!(market.owner, PROGRAM_ID);
    assert_eq!(market.data.len(), LENDING_MARKET_LEN);
}

#[test]
fn test_init_market_twice_fails() {
    let ctx = initialize_lending_market();
    let mut accounts = market_init_accounts(ctx.owner_key, ctx.market.key);
    accounts[1] = ctx.market.clone();
    let ix = InitLendingMarketIxData {
        lending_market_owner: ctx.owner_key,
        quote_currency: [42u8; 32],
        risk_council: ctx.council_key,
    };
    let err = process_init_lending_market(&accounts, &ix.to_bytes(), &ctx.program_id, MIN_BALANCE)
        .unwrap_err();
    assert_eq!(err, LendError::AccountAlreadyInitialized);
}

#[test]
fn test_risk_council_rotation_scenario() {
    // The market starts with owner O and council R; O rotates the council
    // to R2; afterwards R2 can flip the emergency switch and R cannot.
    let ctx = initialize_lending_market();
    let new_council = [25u8; 32];

    let accounts = vec![signer_account(ctx.owner_key, 0), ctx.market.clone()];
    let ix = UpdateRiskCouncilIxData { new_risk_council: new_council };
    let market = process_update_risk_council(&accounts, &ix.to_bytes()).unwrap();
    let state = LendingMarketState::from_bytes(market.data.as_slice()).unwrap();
    assert_eq!(state.risk_council, new_council);

    let enable_ix = SetEmergencyModeIxData { enable: 1 };
    let accounts = vec![signer_account(new_council, 0), market.clone()];
    let market = process_set_emergency_mode(&accounts, &enable_ix.to_bytes()).unwrap();
    let state = LendingMarketState::from_bytes(market.data.as_slice()).unwrap();
    assert_eq!(state.emergency_mode, 1);

    let accounts = vec![signer_account(ctx.council_key, 0), market.clone()];
    let err = process_set_emergency_mode(&accounts, &enable_ix.to_bytes()).unwrap_err();
    assert_eq!(err, LendError::IllegalOwner);
}

#[test]
fn test_supply_liquidity_overflow_is_checked() {
    let ctx = initialize_lending_market();
    let mint = [50u8; 32];
    let (reserve_key, _) =
        find_program_address(&reserve_seeds(&ctx.market.key, &mint), &ctx.program_id).unwrap();
    let (vault_key, _) = find_program_address(&vault_seeds(&reserve_key), &ctx.program_id).unwrap();

    // A reserve whose counters sit at the ceiling: one more token would
    // overflow the running total.
    let mut state = ReserveState::new(ctx.market.key, mint, 8000, 8500, 500, 0, 0);
    state.total_supply = u64::MAX - 1;
    state.available_liquidity = u64::MAX - 1;
    let reserve = StagedAccount {
        key: reserve_key,
        lamports: MIN_BALANCE,
        owner: ctx.program_id,
        data: state.to_bytes(),
        is_signer: false,
    };

    let accounts = vec![
        signer_account([70u8; 32], 0),
        system_account([71u8; 32]),
        reserve,
        system_account(vault_key),
        system_account(TOKEN_PROGRAM_KEY),
    ];
    let ix = SupplyLiquidityIxData { amount: 2 };
    let err = process_supply_liquidity(&accounts, &ix.to_bytes(), &ctx.program_id).unwrap_err();
    assert_eq!(err, LendError::ArithmeticOverflow);
}

#[test]
fn test_supply_liquidity_requires_program_owner() {
    let ctx = initialize_lending_market();
    let mint = [50u8; 32];
    let (reserve_key, _) =
        find_program_address(&reserve_seeds(&ctx.market.key, &mint), &ctx.program_id).unwrap();
    let (vault_key, _) = find_program_address(&vault_seeds(&reserve_key), &ctx.program_id).unwrap();
    let state = ReserveState::new(ctx.market.key, mint, 8000, 8500, 500, 0, 0);
    // The reserve's storage is owned by a stranger, not this program.
    let reserve = StagedAccount {
        key: reserve_key,
        lamports: MIN_BALANCE,
        owner: [77u8; 32],
        data: state.to_bytes(),
        is_signer: false,
    };
    let accounts = vec![
        signer_account([70u8; 32], 0),
        system_account([71u8; 32]),
        reserve,
        system_account(vault_key),
        system_account(TOKEN_PROGRAM_KEY),
    ];
    let ix = SupplyLiquidityIxData { amount: 5 };
    let err = process_supply_liquidity(&accounts, &ix.to_bytes(), &ctx.program_id).unwrap_err();
    assert_eq!(err, LendError::IllegalOwner);
}

#[test]
fn test_init_obligation_success() {
    let ctx = initialize_lending_market();
    let borrower_key = [30u8; 32];
    let id: u8 = 4;
    let seeds = obligation_seeds(id, &borrower_key, &ctx.market.key);
    let (obligation_key, _) = find_program_address(&seeds, &ctx.program_id).unwrap();
    let accounts = vec![
        signer_account(borrower_key, 1_000_000_000),
        system_account(obligation_key),
        ctx.market.clone(),
        system_account([11u8; 32]),
        system_account(RENT_KEY),
        system_account([12u8; 32]),
    ];
    let ix = InitObligationIxData { id };
    let slot: u64 = 987_654;

    let (payer, obligation) =
        process_init_obligation(&accounts, &ix.to_bytes(), &ctx.program_id, MIN_BALANCE, slot)
            .expect("obligation initialization should succeed");

    assert_eq!(payer.lamports, 1_000_000_000 - MIN_BALANCE);
    assert_eq!(obligation.owner, ctx.program_id);
    assert_eq!(obligation.data.len(), OBLIGATION_LEN);
    let expected = ObligationState::new(ctx.market.key, borrower_key, slot);
    assert_eq!(obligation.data, expected.to_bytes());
    let state = ObligationState::from_bytes(obligation.data.as_slice()).unwrap();
    assert_eq!(state, expected);
    assert_eq!(state.lending_market, ctx.market.key);
    assert_eq!(state.owner, borrower_key);
    assert_eq!(state.last_update_slot, slot);
    assert_eq!(state.health_factor, 0);
    assert_eq!(state.liquidation_threshold, 0);
    for slot_entry in state.deposits.iter() {
        assert_eq!(slot_entry.deposited_amount, 0);
        assert_eq!(slot_entry.deposit_reserve, [0u8; 32]);
    }
    for slot_entry in state.borrows.iter() {
        assert_eq!(slot_entry.borrowed_amount, 0);
        assert_eq!(slot_entry.borrow_reserve, [0u8; 32]);
    }

    // A second creation at the occupied address is refused.
    let mut accounts2 = accounts.clone();
    accounts2[1] = obligation;
    let err =
        process_init_obligation(&accounts2, &ix.to_bytes(), &ctx.program_id, MIN_BALANCE, slot)
            .unwrap_err();
    assert_eq!(err, LendError::AccountAlreadyInitialized);
}

#[test]
fn test_init_obligation_wrong_address() {
    let ctx = initialize_lending_market();
    let borrower_key = [30u8; 32];
    let id: u8 = 4;
    let other_seeds = obligation_seeds(5, &borrower_key, &ctx.market.key);
    let (other_key, _) = find_program_address(&other_seeds, &ctx.program_id).unwrap();
    // The address derived for id 5 cannot stand in for id 4.
    let accounts = vec![
        signer_account(borrower_key, 1_000_000_000),
        system_account(other_key),
        ctx.market.clone(),
        system_account([11u8; 32]),
        system_account(RENT_KEY),
        system_account([12u8; 32]),
    ];
    let ix = InitObligationIxData { id };
    let err = process_init_obligation(&accounts, &ix.to_bytes(), &ctx.program_id, MIN_BALANCE, 1)
        .unwrap_err();
    assert_eq!(err, LendError::InvalidSeeds);
}

#[test]
fn test_payload_codec_round_trips() {
    let init = InitLendingMarketIxData {
        lending_market_owner: [1u8; 32],
        quote_currency: [2u8; 32],
        risk_council: [3u8; 32],
    };
    assert_eq!(InitLendingMarketIxData::from_bytes(&init.to_bytes()).unwrap(), init);

    let reserve = InitReserveIxData {
        ltv: 8000,
        liquidation_threshold: 8500,
        liquidation_bonus: 500,
        borrow_cap: 123,
        deposit_cap: 456,
    };
    let bytes = reserve.to_bytes();
    assert_eq!(bytes.len(), 22);
    assert_eq!(InitReserveIxData::from_bytes(&bytes).unwrap(), reserve);
    assert!(InitReserveIxData::from_bytes(&bytes[..21]).is_err());

    let supply = SupplyLiquidityIxData { amount: 98765 };
    assert_eq!(SupplyLiquidityIxData::from_bytes(&supply.to_bytes()).unwrap(), supply);

    let obligation = InitObligationIxData { id: 7 };
    assert_eq!(InitObligationIxData::from_bytes(&obligation.to_bytes()).unwrap(), obligation);
}

#[test]
fn test_create_pda_account_stages_funding() {
    let payer = signer_account([1u8; 32], 10_000);
    let target = system_account([2u8; 32]);
    let (payer, target) = create_pda_account(&payer, &target, 100, 4_000, &PROGRAM_ID).unwrap();
    assert_eq!(payer.lamports, 6_000);
    assert_eq!(target.lamports, 4_000);
    assert_eq!(target.owner, PROGRAM_ID);
    assert_eq!(target.data, vec![0u8; 100]);

    let poor_payer = signer_account([1u8; 32], 3_999);
    let err = create_pda_account(&poor_payer, &system_account([2u8; 32]), 100, 4_000, &PROGRAM_ID)
        .unwrap_err();
    assert_eq!(err, LendError::InsufficientFunds);
}

#[test]
fn test_close_account_stages_reclaim() {
    let mut target = system_account([2u8; 32]);
    target.lamports = 5_000;
    target.data = vec![1, 2, 3];
    let destination = signer_account([1u8; 32], 100);
    let (target, destination) = close_account(&target, &destination);
    assert_eq!(target.lamports, 0);
    assert_eq!(target.data, vec![255u8]);
    assert_eq!(destination.lamports, 5_100);
}

#[test]
fn test_init_reserve_requires_enough_accounts() {
    let ctx = initialize_lending_market();
    let accounts = vec![
        signer_account(ctx.owner_key, 1_000_000_000),
        system_account([4u8; 32]),
        ctx.market.clone(),
    ];
    let ix = InitReserveIxData {
        ltv: 8000,
        liquidation_threshold: 8500,
        liquidation_bonus: 500,
        borrow_cap: 0,
        deposit_cap: 0,
    };
    let err = process_init_reserve(
        &accounts,
        &ix.to_bytes(),
        &ctx.program_id,
        MIN_BALANCE,
        VAULT_MIN_BALANCE,
    )
    .unwrap_err();
    assert_eq!(err, LendError::NotEnoughAccountKeys);
}

#[test]
fn test_init_reserve_stages_vault_actions() {
    let ctx = initialize_lending_market();
    let mint = [50u8; 32];
    let (reserve_key, _) =
        find_program_address(&reserve_seeds(&ctx.market.key, &mint), &ctx.program_id).unwrap();
    let (vault_key, _) = find_program_address(&vault_seeds(&reserve_key), &ctx.program_id).unwrap();
    let accounts = vec![
        signer_account(ctx.owner_key, 1_000_000_000),
        system_account(reserve_key),
        ctx.market.clone(),
        system_account(mint),
        system_account(vault_key),
        system_account(TOKEN_PROGRAM_KEY),
        system_account(RENT_KEY),
    ];
    let ix = InitReserveIxData {
        ltv: 8000,
        liquidation_threshold: 8500,
        liquidation_bonus: 500,
        borrow_cap: 0,
        deposit_cap: 0,
    };
    let effect = process_init_reserve(
        &accounts,
        &ix.to_bytes(),
        &ctx.program_id,
        MIN_BALANCE,
        VAULT_MIN_BALANCE,
    )
    .unwrap();
    assert_eq!(effect.payer.lamports, 1_000_000_000 - MIN_BALANCE);
    assert_eq!(effect.vault_create.payer, ctx.owner_key);
    assert_eq!(effect.vault_create.vault, vault_key);
    assert_eq!(effect.vault_create.lamports, VAULT_MIN_BALANCE);
    assert_eq!(effect.vault_create.space, 165);
    assert_eq!(effect.vault_create.owner_program, TOKEN_PROGRAM_KEY);
    assert_eq!(effect.vault_init.vault, vault_key);
    assert_eq!(effect.vault_init.mint, mint);
    assert_eq!(effect.vault_init.authority, reserve_key);
}
