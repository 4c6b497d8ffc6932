//! Full lifecycle of one market, with a minimal in-memory ledger applying
//! the commands of each successful operation atomically.

use std::collections::HashMap;

use prediction_market::addresses::{derive_authority, Address};
use prediction_market::errors::ErrorCode;
use prediction_market::ledger::LedgerCommand;
use prediction_market::market::{ClaimProfits, FinishMarket, InternalState, Mint};

/// Balances per (asset, account) pair, plus total supply per asset.
struct MiniLedger {
    balances: HashMap<(u64, u64), u64>,
    supply: HashMap<u64, u64>,
}

impl MiniLedger {
    fn new() -> MiniLedger {
        MiniLedger { balances: HashMap::new(), supply: HashMap::new() }
    }

    fn balance(&self, asset: Address, account: Address) -> u64 {
        *self.balances.get(&(asset.id, account.id)).unwrap_or(&0)
    }

    fn supply(&self, asset: Address) -> u64 {
        *self.supply.get(&asset.id).unwrap_or(&0)
    }

    fn credit(&mut self, asset: Address, account: Address, amount: u64) {
        *self.balances.entry((asset.id, account.id)).or_insert(0) += amount;
    }

    fn debit(&mut self, asset: Address, account: Address, amount: u64) -> Result<(), ()> {
        let entry = self.balances.entry((asset.id, account.id)).or_insert(0);
        if *entry < amount {
            return Err(());
        }
        *entry -= amount;
        Ok(())
    }

    /// Applies one command, expecting the market's derived authority.
    fn apply(&mut self, cmd: &LedgerCommand, market: &InternalState) -> Result<(), ()> {
        let expected = derive_authority(market.signer, market.nonce);
        match *cmd {
            LedgerCommand::MintTo { asset, to, amount, authority } => {
                if authority != expected {
                    return Err(());
                }
                self.credit(asset, to, amount);
                *self.supply.entry(asset.id).or_insert(0) += amount;
                Ok(())
            }
            LedgerCommand::Burn { asset, from, amount, authority } => {
                if authority != expected {
                    return Err(());
                }
                self.debit(asset, from, amount)?;
                *self.supply.entry(asset.id).or_insert(0) -= amount;
                Ok(())
            }
            LedgerCommand::Transfer { asset, from, to, amount, authority } => {
                if authority != expected {
                    return Err(());
                }
                self.debit(asset, from, amount)?;
                self.credit(asset, to, amount);
                Ok(())
            }
        }
    }

    fn apply_all(&mut self, cmds: &[LedgerCommand], market: &InternalState) {
        for cmd in cmds {
            self.apply(cmd, market).expect("ledger rejected a command");
        }
    }
}

#[test]
fn full_market_lifecycle() {
    let oracle = Address { id: 20 };
    let yes = Address { id: 31 };
    let no = Address { id: 32 };
    let collateral = Address { id: 40 };
    let vault = Address { id: 41 };
    let holder = Address { id: 50 };
    let holder_yes = Address { id: 51 };
    let holder_no = Address { id: 52 };

    let mut ledger = MiniLedger::new();
    let mut m = InternalState::new();
    let r = m.initialize(
        7,
        Address { id: 11 },
        oracle,
        collateral,
        vault,
        Address { id: 12 },
        1000,
        yes,
        no,
    );
    assert_eq!(r, Ok(()));

    // The holder deposits 100 collateral into the vault, then mints.
    ledger.credit(collateral, vault, 100);
    let commands = m
        .mint_complete_sets(
            Mint { to1: holder_yes, to2: holder_no, collateral_balance: ledger.balance(collateral, vault) },
            100,
        )
        .unwrap();
    ledger.apply_all(&commands, &m);
    assert_eq!(m.collateral_minted, 100);
    assert_eq!(ledger.balance(yes, holder_yes), 100);
    assert_eq!(ledger.balance(no, holder_no), 100);
    assert_eq!(ledger.supply(yes), 100);
    assert_eq!(ledger.supply(no), 100);

    // Too early: resolution is rejected and the market stays open.
    let early = FinishMarket { oracle, winner: yes, current_time: 999 };
    assert_eq!(m.resolve_market(early), Err(ErrorCode::ExpirationNotPassed));

    // At the expiration time the oracle reports the winner.
    let on_time = FinishMarket { oracle, winner: yes, current_time: 1000 };
    assert_eq!(m.resolve_market(on_time), Ok(()));
    assert_eq!(m.winner, yes);

    // Claiming 50 on the winning outcome burns 50 and pays 50 collateral.
    let claim = ClaimProfits { winner_outcome: yes, winner_from: holder_yes, to: holder };
    let commands = m.claim_profits(claim, 50).unwrap();
    ledger.apply_all(&commands, &m);
    assert_eq!(ledger.balance(yes, holder_yes), 50);
    assert_eq!(ledger.supply(yes), 50);
    assert_eq!(ledger.balance(collateral, holder), 50);
    assert_eq!(ledger.balance(collateral, vault), 50);

    // The losing outcome has no claim path.
    let losing = ClaimProfits { winner_outcome: no, winner_from: holder_no, to: holder };
    assert_eq!(m.claim_profits(losing, 50), Err(ErrorCode::WinnerMismatch));
    assert_eq!(ledger.balance(no, holder_no), 100);
}
