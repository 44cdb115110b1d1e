use plend::account::StagedAccount;
use plend::errors::LendError;
use plend::lending_market::LendingMarketState;
use plend::market_instructions::{process_init_lending_market, InitLendingMarketIxData};
use plend::pda::{find_program_address, market_seeds, reserve_seeds, vault_seeds};
use plend::reserve::ReserveState;
use plend::reserve_instructions::{process_init_reserve, InitReserveIxData};

const PROGRAM_ID: [u8; 32] = [7u8; 32];
const TOKEN_PROGRAM_KEY: [u8; 32] = [8u8; 32];
const RENT_KEY: [u8; 32] = [3u8; 32];
const MIN_BALANCE: u64 = 2_282_880;
const VAULT_MIN_BALANCE: u64 = 2_039_280;

fn system_account(key: [u8; 32]) -> StagedAccount {
    StagedAccount { key, lamports: 0, owner: [0u8; 32], data: Vec::new(), is_signer: false }
}

fn signer_account(key: [u8; 32], lamports: u64) -> StagedAccount {
    StagedAccount { key, lamports, owner: [0u8; 32], data: Vec::new(), is_signer: true }
}

struct MarketCtx {
    program_id: [u8; 32],
    owner_key: [u8; 32],
    market: StagedAccount,
}

fn initialize_lending_market() -> MarketCtx {
    let program_id = PROGRAM_ID;
    let owner_key = [1u8; 32];
    let council_key = [2u8; 32];
    let seeds = market_seeds(&owner_key);
    let (market_key, _bump) =
        find_program_address(&seeds, &program_id).expect("derivation should find a bump");
    let accounts = vec![
        signer_account(owner_key, 1_000_000_000),
        system_account(market_key),
        system_account(RENT_KEY),
    ];
    let ix = InitLendingMarketIxData {
        lending_market_owner: owner_key,
        quote_currency: [42u8; 32],
        risk_council: council_key,
    };
    let (_payer, market) =
        process_init_lending_market(&accounts, &ix.to_bytes(), &program_id, MIN_BALANCE)
            .expect("initialization transaction failed");
    MarketCtx { program_id, owner_key, market }
}

fn derive_reserve_key(ctx: &MarketCtx, mint_key: &[u8; 32]) -> [u8; 32] {
    let seeds = reserve_seeds(&ctx.market.key, mint_key);
    find_program_address(&seeds, &ctx.program_id).expect("derivation should find a bump").0
}

fn init_reserve_accounts(
    ctx: &MarketCtx,
    signer_key: [u8; 32],
    reserve_key: [u8; 32],
    mint_key: [u8; 32],
) -> Vec<StagedAccount> {
    let vault_key =
        find_program_address(&vault_seeds(&reserve_key), &ctx.program_id).map(|p| p.0).unwrap_or(
            [0u8; 32],
        );
    vec![
        signer_account(signer_key, 1_000_000_000),
        system_account(reserve_key),
        ctx.market.clone(),
        system_account(mint_key),
        system_account(vault_key),
        system_account(TOKEN_PROGRAM_KEY),
        system_account(RENT_KEY),
    ]
}

fn try_init_reserve(
    ctx: &MarketCtx,
    mint_key: [u8; 32],
    ltv: u16,
    liquidation_threshold: u16,
    liquidation_bonus: u16,
    borrow_cap: u64,
    deposit_cap: u64,
) -> Result<StagedAccount, LendError> {
    let reserve_key = derive_reserve_key(ctx, &mint_key);
    let accounts = init_reserve_accounts(ctx, ctx.owner_key, reserve_key, mint_key);
    let ix = InitReserveIxData {
        ltv,
        liquidation_threshold,
        liquidation_bonus,
        borrow_cap,
        deposit_cap,
    };
    process_init_reserve(
        &accounts,
        &ix.to_bytes(),
        &ctx.program_id,
        MIN_BALANCE,
        VAULT_MIN_BALANCE,
    )
    .map(|e| e.reserve)
}

fn reserve_state(reserve: &StagedAccount) -> ReserveState {
    ReserveState::from_bytes(reserve.data.as_slice()).expect("invalid reserve account state")
}

#[test]
fn test_init_reserve_success() {
    let ctx = initialize_lending_market();
    let mint = [50u8; 32];

    let reserve = try_init_reserve(
        &ctx,
        mint,
        8000,          // 80% LTV
        8500,          // 85% liquidation threshold
        500,           // 5% liquidation bonus
        1_000_000_000, // 1B borrow cap
        2_000_000_000, // 2B deposit cap
    )
    .expect("Reserve initialization should succeed");

    let state = reserve_state(&reserve);

    assert_eq!(state.lending_market, ctx.market.key);
    assert_eq!(state.mint, mint);
    assert_eq!(state.version, 0);
    assert_eq!(state.available_liquidity, 0);
    assert_eq!(state.total_supply, 0);
    assert_eq!(state.total_borrows, 0);
    assert_eq!(state.supply_index, 1_000_000_000_000_000_000); // 1.0 in 18 decimals
    assert_eq!(state.borrow_index, 1_000_000_000_000_000_000); // 1.0 in 18 decimals
    assert_eq!(state.ltv, 8000);
    assert_eq!(state.liquidation_threshold, 8500);
    assert_eq!(state.liquidation_bonus, 500);
    assert_eq!(state.borrow_cap, 1_000_000_000);
    assert_eq!(state.deposit_cap, 2_000_000_000);
    assert_eq!(state.farm_address, [0u8; 32]);
    assert_eq!(state.farm_balance, 0);
    assert_eq!(state.is_active, 1);
    assert_eq!(state.allow_deposits, 1);
    assert_eq!(state.allow_borrows, 1);
}

#[test]
fn test_init_reserve_with_minimal_params() {
    let ctx = initialize_lending_market();
    let mint = [51u8; 32];

    let reserve = try_init_reserve(&ctx, mint, 0, 100, 0, 0, 1)
        .expect("Reserve initialization with minimal params should succeed");

    let state = reserve_state(&reserve);
    assert_eq!(state.ltv, 0);
    assert_eq!(state.liquidation_threshold, 100);
    assert_eq!(state.liquidation_bonus, 0);
    assert_eq!(state.borrow_cap, 0);
    assert_eq!(state.deposit_cap, 1);
}

#[test]
fn test_init_reserve_with_maximum_params() {
    let ctx = initialize_lending_market();
    let mint = [52u8; 32];

    let reserve = try_init_reserve(&ctx, mint, 9999, 10000, 2000, u64::MAX, u64::MAX)
        .expect("Reserve initialization with maximum params should succeed");

    let state = reserve_state(&reserve);
    assert_eq!(state.ltv, 9999);
    assert_eq!(state.liquidation_threshold, 10000);
    assert_eq!(state.liquidation_bonus, 2000);
    assert_eq!(state.borrow_cap, u64::MAX);
    assert_eq!(state.deposit_cap, u64::MAX);
}

#[test]
fn test_init_reserve_invalid_ltv_too_high() {
    let ctx = initialize_lending_market();
    let mint = [53u8; 32];

    let err = try_init_reserve(&ctx, mint, 10001, 10000, 500, 1_000_000_000, 2_000_000_000)
        .expect_err("LTV > 100% should fail");

    match err {
        LendError::InvalidInstructionData => {}
        other => panic!("unexpected error: {:?}", other),
    }
}

#[test]
fn test_init_reserve_invalid_liquidation_threshold_too_high() {
    let ctx = initialize_lending_market();
    let mint = [54u8; 32];

    let err = try_init_reserve(&ctx, mint, 8000, 10001, 500, 1_000_000_000, 2_000_000_000)
        .expect_err("Liquidation threshold > 100% should fail");

    match err {
        LendError::InvalidInstructionData => {}
        other => panic!("unexpected error: {:?}", other),
    }
}

#[test]
fn test_init_reserve_invalid_liquidation_bonus_too_high() {
    let ctx = initialize_lending_market();
    let mint = [55u8; 32];

    let err = try_init_reserve(&ctx, mint, 8000, 8500, 2001, 1_000_000_000, 2_000_000_000)
        .expect_err("Liquidation bonus > 20% should fail");

    match err {
        LendError::InvalidInstructionData => {}
        other => panic!("unexpected error: {:?}", other),
    }
}

#[test]
fn test_init_reserve_invalid_ltv_gte_liquidation_threshold() {
    let ctx = initialize_lending_market();
    let mint = [56u8; 32];

    let err = try_init_reserve(&ctx, mint, 8500, 8500, 500, 1_000_000_000, 2_000_000_000)
        .expect_err("LTV >= liquidation threshold should fail");

    match err {
        LendError::InvalidInstructionData => {}
        other => panic!("unexpected error: {:?}", other),
    }
}

#[test]
fn test_init_reserve_requires_market_owner() {
    let ctx = initialize_lending_market();
    let mint = [57u8; 32];
    let unauthorized_key = [9u8; 32];

    let reserve_key = derive_reserve_key(&ctx, &mint);
    let accounts = init_reserve_accounts(&ctx, unauthorized_key, reserve_key, mint);
    let ix = InitReserveIxData {
        ltv: 8000,
        liquidation_threshold: 8500,
        liquidation_bonus: 500,
        borrow_cap: 1_000_000_000,
        deposit_cap: 2_000_000_000,
    };

    let err = process_init_reserve(
        &accounts,
        &ix.to_bytes(),
        &ctx.program_id,
        MIN_BALANCE,
        VAULT_MIN_BALANCE,
    )
    .expect_err("Only lending market owner should be able to init reserve");

    match err {
        LendError::InvalidAccountData => {}
        other => panic!("unexpected error: {:?}", other),
    }
}

#[test]
fn test_init_reserve_already_initialized() {
    let ctx = initialize_lending_market();
    let mint = [58u8; 32];

    let reserve = try_init_reserve(&ctx, mint, 8000, 8500, 500, 1_000_000_000, 2_000_000_000)
        .expect("First initialization should succeed");

    // Try to initialize again with slightly different parameters, at the
    // now-occupied derived address.
    let mut accounts = init_reserve_accounts(&ctx, ctx.owner_key, reserve.key, mint);
    accounts[1] = reserve;
    let ix = InitReserveIxData {
        ltv: 7500,
        liquidation_threshold: 8000,
        liquidation_bonus: 600,
        borrow_cap: 1_000_000_000,
        deposit_cap: 2_000_000_000,
    };

    let err = process_init_reserve(
        &accounts,
        &ix.to_bytes(),
        &ctx.program_id,
        MIN_BALANCE,
        VAULT_MIN_BALANCE,
    )
    .expect_err("Second initialization should fail");

    match err {
        LendError::AccountAlreadyInitialized => {}
        other => panic!("unexpected error: {:?}", other),
    }
}

#[test]
fn test_init_reserve_wrong_pda() {
    let ctx = initialize_lending_market();
    let mint = [59u8; 32];
    let wrong_reserve_key = [60u8; 32];

    let accounts = init_reserve_accounts(&ctx, ctx.owner_key, wrong_reserve_key, mint);
    let ix = InitReserveIxData {
        ltv: 8000,
        liquidation_threshold: 8500,
        liquidation_bonus: 500,
        borrow_cap: 1_000_000_000,
        deposit_cap: 2_000_000_000,
    };

    let err = process_init_reserve(
        &accounts,
        &ix.to_bytes(),
        &ctx.program_id,
        MIN_BALANCE,
        VAULT_MIN_BALANCE,
    )
    .expect_err("Wrong PDA should fail");

    match err {
        LendError::InvalidSeeds => {}
        other => panic!("unexpected error: {:?}", other),
    }
}

#[test]
fn test_init_multiple_reserves_same_market() {
    let ctx = initialize_lending_market();
    let mint1 = [61u8; 32];
    let mint2 = [62u8; 32];

    let reserve1 = try_init_reserve(&ctx, mint1, 8000, 8500, 500, 1_000_000_000, 2_000_000_000)
        .expect("First reserve initialization should succeed");
    let reserve2 = try_init_reserve(&ctx, mint2, 7500, 8000, 600, 500_000_000, 1_500_000_000)
        .expect("Second reserve initialization should succeed");

    assert_ne!(reserve1.key, reserve2.key);

    let state1 = reserve_state(&reserve1);
    let state2 = reserve_state(&reserve2);

    assert_eq!(state1.mint, mint1);
    assert_eq!(state2.mint, mint2);
    assert_eq!(state1.ltv, 8000);
    assert_eq!(state2.ltv, 7500);
}

#[test]
fn test_market_round_trip() {
    let ctx = initialize_lending_market();
    let state = LendingMarketState::from_bytes(ctx.market.data.as_slice()).unwrap();
    assert_eq!(state.to_bytes(), ctx.market.data);
}
