//! Behavioral tests for the market state machine: one test per rule of each
//! operation, with exact expected states, errors and ledger commands.

use prediction_market::addresses::{derive_authority, Address};
use prediction_market::errors::ErrorCode;
use prediction_market::ledger::LedgerCommand;
use prediction_market::market::{
    ClaimProfits, FinishMarket, InternalState, Mint, RedeemCompleteSets, OUTCOME_DECIMALS,
};

const EXPIRATION: i64 = 1000;
const NONCE: u8 = 7;

fn signer() -> Address {
    Address { id: 1 }
}

fn oracle() -> Address {
    Address { id: 2 }
}

fn collateral() -> Address {
    Address { id: 3 }
}

fn vault() -> Address {
    Address { id: 4 }
}

fn mint_authority() -> Address {
    Address { id: 5 }
}

fn outcome_yes() -> Address {
    Address { id: 6 }
}

fn outcome_no() -> Address {
    Address { id: 7 }
}

/// A market configured with the fixture values above.
fn initialized_market() -> InternalState {
    let mut m = InternalState::new();
    let r = m.initialize(
        NONCE,
        signer(),
        oracle(),
        collateral(),
        vault(),
        mint_authority(),
        EXPIRATION,
        outcome_yes(),
        outcome_no(),
    );
    assert_eq!(r, Ok(()));
    m
}

#[test]
fn new_market_is_blank() {
    let m = InternalState::new();
    assert_eq!(m.nonce, 0);
    assert_eq!(m.signer, Address { id: 0 });
    assert_eq!(m.oracle, Address { id: 0 });
    assert_eq!(m.mint_authority, Address { id: 0 });
    assert_eq!(m.collateral_token, Address { id: 0 });
    assert_eq!(m.collateral_minted, 0);
    assert_eq!(m.vault, Address { id: 0 });
    assert_eq!(m.winner, Address { id: 0 });
    assert_eq!(m.expiration_time, 0);
    assert_eq!(m.outcome1.address, Address { id: 0 });
    assert_eq!(m.outcome1.decimals, OUTCOME_DECIMALS);
    assert_eq!(m.outcome1.ticker, vec![b'Y', b'E', b'S']);
    assert_eq!(m.outcome2.address, Address { id: 0 });
    assert_eq!(m.outcome2.decimals, OUTCOME_DECIMALS);
    assert_eq!(m.outcome2.ticker, vec![b'N', b'O']);
}

#[test]
fn initialize_stores_configuration() {
    let m = initialized_market();
    assert_eq!(m.nonce, NONCE);
    assert_eq!(m.signer, signer());
    assert_eq!(m.oracle, oracle());
    assert_eq!(m.collateral_token, collateral());
    assert_eq!(m.vault, vault());
    assert_eq!(m.mint_authority, mint_authority());
    assert_eq!(m.expiration_time, EXPIRATION);
    assert_eq!(m.outcome1.address, outcome_yes());
    assert_eq!(m.outcome2.address, outcome_no());
    assert_eq!(m.collateral_minted, 0);
    assert_eq!(m.winner, Address { id: 0 });
    assert_eq!(m.outcome1.ticker, b"YES".to_vec());
    assert_eq!(m.outcome2.ticker, b"NO".to_vec());
}

#[test]
fn initialize_twice_fails() {
    let mut m = initialized_market();
    let before = m.clone();
    let r = m.initialize(
        9,
        Address { id: 21 },
        Address { id: 22 },
        Address { id: 23 },
        Address { id: 24 },
        Address { id: 25 },
        5000,
        Address { id: 26 },
        Address { id: 27 },
    );
    assert_eq!(r, Err(ErrorCode::AlreadyInitialized));
    assert_eq!(m, before);
}

#[test]
fn mint_returns_paired_mint_commands() {
    let mut m = initialized_market();
    let accounts = Mint { to1: Address { id: 8 }, to2: Address { id: 9 }, collateral_balance: 100 };
    let commands = m.mint_complete_sets(accounts, 100).unwrap();
    let authority = derive_authority(signer(), NONCE);
    assert_eq!(
        commands,
        vec![
            LedgerCommand::MintTo {
                asset: outcome_yes(),
                to: Address { id: 8 },
                amount: 100,
                authority
            },
            LedgerCommand::MintTo {
                asset: outcome_no(),
                to: Address { id: 9 },
                amount: 100,
                authority
            },
        ]
    );
    assert_eq!(m.collateral_minted, 100);
}

#[test]
fn mint_absorbs_only_the_new_deposit() {
    let mut m = initialized_market();
    let first = Mint { to1: Address { id: 8 }, to2: Address { id: 9 }, collateral_balance: 100 };
    assert!(m.mint_complete_sets(first, 100).is_ok());
    // 60 more collateral arrives in the vault; only that much can be minted.
    let second = Mint { to1: Address { id: 8 }, to2: Address { id: 9 }, collateral_balance: 160 };
    assert_eq!(m.mint_complete_sets(second, 100), Err(ErrorCode::DepositMismatch));
    let commands = m.mint_complete_sets(second, 60).unwrap();
    assert_eq!(commands.len(), 2);
    assert_eq!(m.collateral_minted, 160);
}

#[test]
fn mint_with_no_new_deposit_fails() {
    let mut m = initialized_market();
    let accounts = Mint { to1: Address { id: 8 }, to2: Address { id: 9 }, collateral_balance: 0 };
    assert_eq!(m.mint_complete_sets(accounts, 0), Err(ErrorCode::ZeroDeposit));
    assert_eq!(m.mint_complete_sets(accounts, 50), Err(ErrorCode::ZeroDeposit));
    assert_eq!(m.collateral_minted, 0);
}

#[test]
fn mint_with_mismatched_amount_fails() {
    let mut m = initialized_market();
    let accounts = Mint { to1: Address { id: 8 }, to2: Address { id: 9 }, collateral_balance: 100 };
    let before = m.clone();
    assert_eq!(m.mint_complete_sets(accounts, 50), Err(ErrorCode::DepositMismatch));
    assert_eq!(m.mint_complete_sets(accounts, 101), Err(ErrorCode::DepositMismatch));
    assert_eq!(m.mint_complete_sets(accounts, 0), Err(ErrorCode::DepositMismatch));
    assert_eq!(m, before);
}

#[test]
fn redeem_returns_burns_and_payout() {
    let mut m = initialized_market();
    let accounts = Mint { to1: Address { id: 8 }, to2: Address { id: 9 }, collateral_balance: 100 };
    assert!(m.mint_complete_sets(accounts, 100).is_ok());
    let before = m.clone();
    let redeem = RedeemCompleteSets {
        to: Address { id: 10 },
        to1: Address { id: 8 },
        to2: Address { id: 9 },
    };
    let commands = m.redeem_complete_sets(redeem, 40).unwrap();
    let authority = derive_authority(signer(), NONCE);
    assert_eq!(
        commands,
        vec![
            LedgerCommand::Burn { asset: outcome_yes(), from: Address { id: 8 }, amount: 40, authority },
            LedgerCommand::Burn { asset: outcome_no(), from: Address { id: 9 }, amount: 40, authority },
            LedgerCommand::Transfer {
                asset: collateral(),
                from: vault(),
                to: Address { id: 10 },
                amount: 40,
                authority
            },
        ]
    );
    assert_eq!(m, before);
}

#[test]
fn resolve_before_expiration_fails() {
    let mut m = initialized_market();
    let call = FinishMarket { oracle: oracle(), winner: outcome_yes(), current_time: 999 };
    assert_eq!(m.resolve_market(call), Err(ErrorCode::ExpirationNotPassed));
    assert_eq!(m.winner, Address { id: 0 });
}

#[test]
fn resolve_by_wrong_oracle_fails() {
    let mut m = initialized_market();
    let call = FinishMarket { oracle: Address { id: 99 }, winner: outcome_yes(), current_time: 1000 };
    assert_eq!(m.resolve_market(call), Err(ErrorCode::OracleMismatch));
    assert_eq!(m.winner, Address { id: 0 });
}

#[test]
fn resolve_records_winner_once() {
    let mut m = initialized_market();
    let call = FinishMarket { oracle: oracle(), winner: outcome_yes(), current_time: 1000 };
    assert_eq!(m.resolve_market(call), Ok(()));
    assert_eq!(m.winner, outcome_yes());
    // A later attempt with a different winner changes nothing.
    let again = FinishMarket { oracle: oracle(), winner: outcome_no(), current_time: 2000 };
    assert_eq!(m.resolve_market(again), Err(ErrorCode::WinnerAlreadySet));
    assert_eq!(m.winner, outcome_yes());
}

#[test]
fn claim_before_resolution_fails() {
    let mut m = initialized_market();
    let claim = ClaimProfits {
        winner_outcome: outcome_yes(),
        winner_from: Address { id: 8 },
        to: Address { id: 10 },
    };
    assert_eq!(m.claim_profits(claim, 50), Err(ErrorCode::MarketNotSettled));
}

#[test]
fn claim_with_losing_outcome_fails() {
    let mut m = initialized_market();
    let call = FinishMarket { oracle: oracle(), winner: outcome_yes(), current_time: 1000 };
    assert_eq!(m.resolve_market(call), Ok(()));
    let claim = ClaimProfits {
        winner_outcome: outcome_no(),
        winner_from: Address { id: 9 },
        to: Address { id: 10 },
    };
    assert_eq!(m.claim_profits(claim, 50), Err(ErrorCode::WinnerMismatch));
}

#[test]
fn claim_of_zero_fails() {
    let mut m = initialized_market();
    let call = FinishMarket { oracle: oracle(), winner: outcome_yes(), current_time: 1000 };
    assert_eq!(m.resolve_market(call), Ok(()));
    let claim = ClaimProfits {
        winner_outcome: outcome_yes(),
        winner_from: Address { id: 8 },
        to: Address { id: 10 },
    };
    assert_eq!(m.claim_profits(claim, 0), Err(ErrorCode::NoProfits));
}

#[test]
fn claim_burns_winner_and_pays_collateral() {
    let mut m = initialized_market();
    let call = FinishMarket { oracle: oracle(), winner: outcome_yes(), current_time: 1000 };
    assert_eq!(m.resolve_market(call), Ok(()));
    let before = m.clone();
    let claim = ClaimProfits {
        winner_outcome: outcome_yes(),
        winner_from: Address { id: 8 },
        to: Address { id: 10 },
    };
    let commands = m.claim_profits(claim, 50).unwrap();
    let authority = derive_authority(signer(), NONCE);
    assert_eq!(
        commands,
        vec![
            LedgerCommand::Burn { asset: outcome_yes(), from: Address { id: 8 }, amount: 50, authority },
            LedgerCommand::Transfer {
                asset: collateral(),
                from: vault(),
                to: Address { id: 10 },
                amount: 50,
                authority
            },
        ]
    );
    assert_eq!(m, before);
}

#[test]
fn redeem_still_permitted_after_resolution() {
    let mut m = initialized_market();
    let call = FinishMarket { oracle: oracle(), winner: outcome_yes(), current_time: 1000 };
    assert_eq!(m.resolve_market(call), Ok(()));
    let redeem = RedeemCompleteSets {
        to: Address { id: 10 },
        to1: Address { id: 8 },
        to2: Address { id: 9 },
    };
    let commands = m.redeem_complete_sets(redeem, 25).unwrap();
    assert_eq!(commands.len(), 3);
    assert_eq!(m.winner, outcome_yes());
}

#[test]
fn claim_is_repeatable() {
    let mut m = initialized_market();
    let call = FinishMarket { oracle: oracle(), winner: outcome_yes(), current_time: 1000 };
    assert_eq!(m.resolve_market(call), Ok(()));
    let claim = ClaimProfits {
        winner_outcome: outcome_yes(),
        winner_from: Address { id: 8 },
        to: Address { id: 10 },
    };
    assert_eq!(m.claim_profits(claim, 30).unwrap().len(), 2);
    assert_eq!(m.claim_profits(claim, 20).unwrap().len(), 2);
    assert_eq!(m.winner, outcome_yes());
}
