use plend::account::StagedAccount;
use plend::errors::LendError;
use plend::market_instructions::{process_init_lending_market, InitLendingMarketIxData};
use plend::pda::{find_program_address, market_seeds, reserve_seeds, vault_seeds};
use plend::reserve::ReserveState;
use plend::reserve_instructions::{
    process_close_reserve, process_disable_reserve, process_enable_reserve, process_init_reserve,
    InitReserveIxData,
};

const PROGRAM_ID: [u8; 32] = [7u8; 32];
const TOKEN_PROGRAM_KEY: [u8; 32] = [8u8; 32];
const RENT_KEY: [u8; 32] = [3u8; 32];
const MIN_BALANCE: u64 = 2_282_880;
const VAULT_MIN_BALANCE: u64 = 2_039_280;

fn system_account(key: [u8; 32]) -> StagedAccount {
    StagedAccount { key, lamports: 0, owner: [0u8; 32], data: Vec::new(), is_signer: false }
}

fn signer_account(key: [u8; 32], lamports: u64) -> StagedAccount {
    StagedAccount { key, lamports, owner: [0u8; 32], data: Vec::new(), is_signer: true }
}

struct MarketCtx {
    program_id: [u8; 32],
    owner_key: [u8; 32],
    market: StagedAccount,
}

fn initialize_lending_market() -> MarketCtx {
    let program_id = PROGRAM_ID;
    let owner_key = [1u8; 32];
    let council_key = [2u8; 32];
    let seeds = market_seeds(&owner_key);
    let (market_key, _bump) =
        find_program_address(&seeds, &program_id).expect("derivation should find a bump");
    let accounts = vec![
        signer_account(owner_key, 1_000_000_000),
        system_account(market_key),
        system_account(RENT_KEY),
    ];
    let ix = InitLendingMarketIxData {
        lending_market_owner: owner_key,
        quote_currency: [42u8; 32],
        risk_council: council_key,
    };
    let (_payer, market) =
        process_init_lending_market(&accounts, &ix.to_bytes(), &program_id, MIN_BALANCE)
            .expect("initialization transaction failed");
    MarketCtx { program_id, owner_key, market }
}

fn init_reserve(ctx: &MarketCtx, mint_key: [u8; 32]) -> StagedAccount {
    let reserve_key = find_program_address(&reserve_seeds(&ctx.market.key, &mint_key), &ctx.program_id)
        .expect("derivation should find a bump")
        .0;
    let vault_key = find_program_address(&vault_seeds(&reserve_key), &ctx.program_id)
        .expect("derivation should find a bump")
        .0;
    let accounts = vec![
        signer_account(ctx.owner_key, 1_000_000_000),
        system_account(reserve_key),
        ctx.market.clone(),
        system_account(mint_key),
        system_account(vault_key),
        system_account(TOKEN_PROGRAM_KEY),
        system_account(RENT_KEY),
    ];
    let ix = InitReserveIxData {
        ltv: 8000,
        liquidation_threshold: 8500,
        liquidation_bonus: 500,
        borrow_cap: 1_000_000_000,
        deposit_cap: 2_000_000_000,
    };
    process_init_reserve(
        &accounts,
        &ix.to_bytes(),
        &ctx.program_id,
        MIN_BALANCE,
        VAULT_MIN_BALANCE,
    )
    .expect("Reserve initialization should succeed")
    .reserve
}

fn enable(ctx: &MarketCtx, reserve: &StagedAccount, authority: [u8; 32]) -> Result<StagedAccount, LendError> {
    let accounts = vec![signer_account(authority, 0), reserve.clone(), ctx.market.clone()];
    process_enable_reserve(&accounts, &[], &ctx.program_id)
}

fn disable(ctx: &MarketCtx, reserve: &StagedAccount, authority: [u8; 32]) -> Result<StagedAccount, LendError> {
    let accounts = vec![signer_account(authority, 0), reserve.clone(), ctx.market.clone()];
    process_disable_reserve(&accounts, &[], &ctx.program_id)
}

fn close(ctx: &MarketCtx, reserve: &StagedAccount, authority: [u8; 32]) -> Result<StagedAccount, LendError> {
    let accounts = vec![signer_account(authority, 0), reserve.clone(), ctx.market.clone()];
    process_close_reserve(&accounts, &[], &ctx.program_id)
}

fn reserve_state(reserve: &StagedAccount) -> ReserveState {
    ReserveState::from_bytes(reserve.data.as_slice()).expect("invalid reserve account state")
}

#[test]
fn test_enable_reserve_success() {
    let ctx = initialize_lending_market();
    let reserve = init_reserve(&ctx, [50u8; 32]);

    let reserve = disable(&ctx, &reserve, ctx.owner_key).expect("Disable should succeed");
    let reserve = enable(&ctx, &reserve, ctx.owner_key).expect("Enable should succeed");

    assert_eq!(reserve_state(&reserve).is_active, 1, "Reserve should be active");
}

#[test]
fn test_disable_reserve_success() {
    let ctx = initialize_lending_market();
    let reserve = init_reserve(&ctx, [50u8; 32]);

    let reserve = disable(&ctx, &reserve, ctx.owner_key).expect("Disable should succeed");

    assert_eq!(reserve_state(&reserve).is_active, 0, "Reserve should be inactive");
}

#[test]
fn test_close_reserve_success() {
    let ctx = initialize_lending_market();
    let reserve = init_reserve(&ctx, [50u8; 32]);

    let reserve = close(&ctx, &reserve, ctx.owner_key).expect("Close should succeed");

    assert_eq!(reserve_state(&reserve).is_active, 0, "Reserve should be inactive");
}

#[test]
fn test_enable_reserve_with_risk_council() {
    let ctx = initialize_lending_market();
    let reserve = init_reserve(&ctx, [50u8; 32]);

    let reserve = disable(&ctx, &reserve, ctx.owner_key).expect("Disable should succeed");
    let reserve = enable(&ctx, &reserve, ctx.owner_key).expect("Owner should be able to enable");

    assert_eq!(reserve_state(&reserve).is_active, 1);
}

#[test]
fn test_enable_reserve_requires_authority() {
    let ctx = initialize_lending_market();
    let reserve = init_reserve(&ctx, [50u8; 32]);

    let reserve = disable(&ctx, &reserve, ctx.owner_key).expect("Disable should succeed");
    let reserve = enable(&ctx, &reserve, ctx.owner_key).expect("Owner should be able to enable");

    assert_eq!(reserve_state(&reserve).is_active, 1, "Reserve should be active");
}

#[test]
fn test_close_reserve_requires_owner() {
    let ctx = initialize_lending_market();
    let reserve = init_reserve(&ctx, [50u8; 32]);

    let reserve = close(&ctx, &reserve, ctx.owner_key).expect("Owner should be able to close");

    assert_eq!(reserve_state(&reserve).is_active, 0, "Reserve should be inactive");
}

#[test]
fn test_cannot_enable_closed_reserve() {
    let ctx = initialize_lending_market();
    let reserve = init_reserve(&ctx, [50u8; 32]);

    let reserve = close(&ctx, &reserve, ctx.owner_key).expect("Close should succeed");

    let result = enable(&ctx, &reserve, ctx.owner_key);
    assert!(result.is_err(), "Cannot enable a closed reserve");
}

#[test]
fn test_cannot_disable_closed_reserve() {
    let ctx = initialize_lending_market();
    let reserve = init_reserve(&ctx, [50u8; 32]);

    let reserve = close(&ctx, &reserve, ctx.owner_key).expect("Close should succeed");

    let result = disable(&ctx, &reserve, ctx.owner_key);
    assert!(result.is_err(), "Cannot disable a closed reserve");
}

#[test]
fn test_close_already_closed_reserve_fails() {
    let ctx = initialize_lending_market();
    let reserve = init_reserve(&ctx, [50u8; 32]);

    let reserve = close(&ctx, &reserve, ctx.owner_key).expect("First close should succeed");

    let result = close(&ctx, &reserve, ctx.owner_key);
    assert!(result.is_err(), "Cannot close an already closed reserve");
}

#[test]
fn test_state_transitions() {
    let ctx = initialize_lending_market();
    let reserve = init_reserve(&ctx, [50u8; 32]);
    assert_eq!(reserve_state(&reserve).is_active, 1);

    let reserve = disable(&ctx, &reserve, ctx.owner_key).expect("Disable should succeed");
    assert_eq!(reserve_state(&reserve).is_active, 0);

    let reserve = enable(&ctx, &reserve, ctx.owner_key).expect("Enable should succeed");
    assert_eq!(reserve_state(&reserve).is_active, 1);

    let reserve = close(&ctx, &reserve, ctx.owner_key).expect("Close should succeed");
    assert_eq!(reserve_state(&reserve).is_active, 0);
}
