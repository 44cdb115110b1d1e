use plend::account::StagedAccount;
use plend::errors::LendError;
use plend::lending_market::LendingMarketState;
use plend::market_instructions::{
    process_init_lending_market, process_set_emergency_mode, process_update_lending_market_owner,
    process_update_risk_council, InitLendingMarketIxData, SetEmergencyModeIxData,
    UpdateLendingMarketOwnerIxData, UpdateRiskCouncilIxData,
};
use plend::pda::{find_program_address, market_seeds};

const PROGRAM_ID: [u8; 32] = [7u8; 32];
const MIN_BALANCE: u64 = 2_282_880;

fn system_account(key: [u8; 32]) -> StagedAccount {
    StagedAccount { key, lamports: 0, owner: [0u8; 32], data: Vec::new(), is_signer: false }
}

fn signer_account(key: [u8; 32], lamports: u64) -> StagedAccount {
    StagedAccount { key, lamports, owner: [0u8; 32], data: Vec::new(), is_signer: true }
}

struct MarketCtx {
    program_id: [u8; 32],
    owner_key: [u8; 32],
    council_key: [u8; 32],
    market: StagedAccount,
}

fn initialize_lending_market() -> MarketCtx {
    let program_id = PROGRAM_ID;
    let owner_key = [1u8; 32];
    let council_key = [2u8; 32];
    let seeds = market_seeds(&owner_key);
    let (market_key, _bump) =
        find_program_address(&seeds, &program_id).expect("derivation should find a bump");
    let accounts = vec![
        signer_account(owner_key, 1_000_000_000),
        system_account(market_key),
        system_account([3u8; 32]),
    ];
    let ix = InitLendingMarketIxData {
        lending_market_owner: owner_key,
        quote_currency: [42u8; 32],
        risk_council: council_key,
    };
    let (_payer, market) =
        process_init_lending_market(&accounts, &ix.to_bytes(), &program_id, MIN_BALANCE)
            .expect("initialization transaction failed");
    MarketCtx { program_id: program_id, owner_key, council_key, market }
}

impl MarketCtx {
    fn market_state(&self) -> LendingMarketState {
        LendingMarketState::from_bytes(self.market.data.as_slice())
            .expect("invalid lending market account state")
    }
}

#[test]
fn test_init_lending_market() {
    let ctx = initialize_lending_market();
    let state = ctx.market_state();

    assert_eq!(state.lending_market_owner, ctx.owner_key);
    assert_eq!(state.risk_council, ctx.council_key);
    assert_eq!(state.emergency_mode, 0);
}

#[test]
fn test_set_emergency_mode() {
    let mut ctx = initialize_lending_market();
    let accounts = vec![signer_account(ctx.council_key, 100_000_000), ctx.market.clone()];
    let ix = SetEmergencyModeIxData { enable: 1 };

    ctx.market = process_set_emergency_mode(&accounts, &ix.to_bytes()).unwrap();

    let state = ctx.market_state();
    assert_eq!(state.emergency_mode, 1);
}

#[test]
fn test_set_emergency_mode_requires_authority() {
    let ctx = initialize_lending_market();
    let unauthorized_key = [9u8; 32];
    let accounts = vec![signer_account(unauthorized_key, 1_000_000_000), ctx.market.clone()];
    let ix = SetEmergencyModeIxData { enable: 1 };

    let err = process_set_emergency_mode(&accounts, &ix.to_bytes())
        .expect_err("unauthorized authority should fail");

    match err {
        LendError::IllegalOwner => {}
        other => panic!("unexpected error: {:?}", other),
    }
}

#[test]
fn test_update_risk_council() {
    let mut ctx = initialize_lending_market();
    let new_risk = [15u8; 32];
    let accounts = vec![signer_account(ctx.owner_key, 1_000_000_000), ctx.market.clone()];
    let ix = UpdateRiskCouncilIxData { new_risk_council: new_risk };

    ctx.market = process_update_risk_council(&accounts, &ix.to_bytes()).unwrap();

    let state = ctx.market_state();
    assert_eq!(state.risk_council, new_risk);
}

#[test]
fn test_update_risk_council_requires_owner() {
    let ctx = initialize_lending_market();
    let new_risk = [21u8; 32];
    let unauthorized_key = [9u8; 32];
    let accounts = vec![signer_account(unauthorized_key, 1_000_000_000), ctx.market.clone()];
    let ix = UpdateRiskCouncilIxData { new_risk_council: new_risk };

    let err = process_update_risk_council(&accounts, &ix.to_bytes())
        .expect_err("only owner should be allowed to update risk council");

    match err {
        LendError::IllegalOwner => {}
        other => panic!("unexpected error: {:?}", other),
    }
}

#[test]
fn test_update_lending_market_owner() {
    let mut ctx = initialize_lending_market();
    let new_owner = [33u8; 32];
    let accounts = vec![signer_account(ctx.owner_key, 1_000_000_000), ctx.market.clone()];
    let ix = UpdateLendingMarketOwnerIxData { new_owner };

    ctx.market = process_update_lending_market_owner(&accounts, &ix.to_bytes()).unwrap();

    let state = ctx.market_state();
    assert_eq!(state.lending_market_owner, new_owner);
}

#[test]
fn test_update_lending_market_owner_requires_owner() {
    let ctx = initialize_lending_market();
    let new_owner = [44u8; 32];
    let unauthorized_key = [9u8; 32];
    let accounts = vec![signer_account(unauthorized_key, 1_000_000_000), ctx.market.clone()];
    let ix = UpdateLendingMarketOwnerIxData { new_owner };

    let err = process_update_lending_market_owner(&accounts, &ix.to_bytes())
        .expect_err("only current owner may transfer ownership");

    match err {
        LendError::IllegalOwner => {}
        other => panic!("unexpected error: {:?}", other),
    }
}
