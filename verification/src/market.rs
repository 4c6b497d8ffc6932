//! The market state machine.
//!
//! One [`InternalState`] value is the single source of truth for a market's
//! configuration, collateralization counter, and resolution status. The five
//! operations validate their preconditions against it, mutate it, and return
//! the ledger commands a successful operation delegates to the external token
//! ledger. Every operation is all-or-nothing: on any error the state is left
//! unchanged and no command is issued.

use vstd::prelude::*;

use crate::addresses::{derive_authority, spec_derive_authority, Address, DerivedAuthority};
use crate::errors::ErrorCode;
use crate::ledger::LedgerCommand;

verus! {

/// Display precision shared by both outcome assets.
pub const OUTCOME_DECIMALS: u8 = 8;

/// One of the market's two outcome assets.
#[derive(Clone, PartialEq, Eq, Debug)]
pub struct Outcome {
    /// Address of the outcome's token mint; unset until initialization,
    /// immutable afterwards.
    pub address: Address,
    /// Display precision of the outcome asset.
    pub decimals: u8,
    /// Display ticker of the outcome asset.
    pub ticker: Vec<u8>,
}

/// Per-call accounts for [`InternalState::mint_complete_sets`]: the two
/// recipient accounts and the observed balance of the collateral vault.
#[derive(Clone, Copy, PartialEq, Eq, Structural, Debug)]
pub struct Mint {
    /// Account receiving the newly minted units of the first outcome.
    pub to1: Address,
    /// Account receiving the newly minted units of the second outcome.
    pub to2: Address,
    /// Balance of the collateral vault as observed for this call.
    pub collateral_balance: u64,
}

/// Per-call accounts for [`InternalState::redeem_complete_sets`].
#[derive(Clone, Copy, PartialEq, Eq, Structural, Debug)]
pub struct RedeemCompleteSets {
    /// Account receiving the returned collateral.
    pub to: Address,
    /// Account whose units of the first outcome are burned.
    pub to1: Address,
    /// Account whose units of the second outcome are burned.
    pub to2: Address,
}

/// Per-call accounts for [`InternalState::claim_profits`].
#[derive(Clone, Copy, PartialEq, Eq, Structural, Debug)]
pub struct ClaimProfits {
    /// The outcome asset the caller presents as the winner.
    pub winner_outcome: Address,
    /// Account whose winning-outcome units are burned.
    pub winner_from: Address,
    /// Account receiving the collateral payout.
    pub to: Address,
}

/// Per-call inputs for [`InternalState::resolve_market`]: the authenticated
/// caller, the outcome it reports as the winner, and the current time.
#[derive(Clone, Copy, PartialEq, Eq, Structural, Debug)]
pub struct FinishMarket {
    /// The authenticated identity submitting the resolution.
    pub oracle: Address,
    /// The outcome asset reported as the winner.
    pub winner: Address,
    /// The current time, as supplied by the host's clock.
    pub current_time: i64,
}

/// The state of one market.
#[derive(Clone, PartialEq, Eq, Debug)]
pub struct InternalState {
    /// Byte used, together with `signer`, to re-derive the market's signing
    /// authority on every operation; fixed at initialization.
    pub nonce: u8,
    /// The account permitted to perform privileged setup; set once.
    pub signer: Address,
    /// The account whose resolution call is trusted; set once.
    pub oracle: Address,
    /// Stored authority account recorded at initialization.
    pub mint_authority: Address,
    /// Address of the collateral asset backing the market.
    pub collateral_token: Address,
    /// Running total of collateral already accounted for as backing minted
    /// outcome positions; monotonic non-decreasing.
    pub collateral_minted: u64,
    /// Address of the vault account holding deposited collateral.
    pub vault: Address,
    /// Unset until resolution; thereafter the winning outcome's address,
    /// write-once.
    pub winner: Address,
    /// Timestamp before which resolution is disallowed.
    pub expiration_time: i64,
    /// The first outcome ("YES").
    pub outcome1: Outcome,
    /// The second outcome ("NO").
    pub outcome2: Outcome,
}

/// The ticker of the first outcome.
pub open spec fn yes_ticker() -> Seq<u8> {
    seq![89u8, 69u8, 83u8]
}

/// The ticker of the second outcome.
pub open spec fn no_ticker() -> Seq<u8> {
    seq![78u8, 79u8]
}

/// Whether an executable operation result agrees with the result of the
/// corresponding specification transition.
pub open spec fn commands_match(
    r: Result<Vec<LedgerCommand>, ErrorCode>,
    s: Result<Seq<LedgerCommand>, ErrorCode>,
) -> bool {
    match (r, s) {
        (Ok(v), Ok(cs)) => v@ == cs,
        (Err(e1), Err(e2)) => e1 == e2,
        _ => false,
    }
}

impl InternalState {
    /// Whether the market has been configured: initialization records an
    /// oracle or a nonzero expiration time, and both stay fixed afterwards.
    pub open spec fn is_initialized(&self) -> bool {
        self.expiration_time != 0 || !self.oracle.spec_is_unset()
    }

    /// Whether a winner has been recorded.
    pub open spec fn is_resolved(&self) -> bool {
        !self.winner.spec_is_unset()
    }

    /// The signing authority every ledger command of this market carries.
    pub open spec fn authority(&self) -> DerivedAuthority {
        spec_derive_authority(self.signer, self.nonce)
    }

    /// The blank state a market is created in: everything unset except the
    /// fixed outcome tickers and decimals.
    pub open spec fn is_blank(&self) -> bool {
        &&& self.nonce == 0
        &&& self.signer.spec_is_unset()
        &&& self.oracle.spec_is_unset()
        &&& self.mint_authority.spec_is_unset()
        &&& self.collateral_token.spec_is_unset()
        &&& self.collateral_minted == 0
        &&& self.vault.spec_is_unset()
        &&& self.winner.spec_is_unset()
        &&& self.expiration_time == 0
        &&& self.outcome1.address.spec_is_unset()
        &&& self.outcome1.decimals == OUTCOME_DECIMALS
        &&& self.outcome1.ticker@ == yes_ticker()
        &&& self.outcome2.address.spec_is_unset()
        &&& self.outcome2.decimals == OUTCOME_DECIMALS
        &&& self.outcome2.ticker@ == no_ticker()
    }

    /// Creates a market in its blank, uninitialized state.
    pub fn new() -> (s: InternalState)
        ensures
            s.is_blank(),
            !s.is_initialized(),
            !s.is_resolved(),
    {
        let mut ticker1: Vec<u8> = Vec::new();
        ticker1.push(89);
        ticker1.push(69);
        ticker1.push(83);
        let mut ticker2: Vec<u8> = Vec::new();
        ticker2.push(78);
        ticker2.push(79);
        proof {
            assert(ticker1@ =~= yes_ticker());
            assert(ticker2@ =~= no_ticker());
        }
        let outcome1 = Outcome { address: Address::unset(), decimals: OUTCOME_DECIMALS, ticker: ticker1 };
        let outcome2 = Outcome { address: Address::unset(), decimals: OUTCOME_DECIMALS, ticker: ticker2 };
        InternalState {
            nonce: 0,
            signer: Address::unset(),
            oracle: Address::unset(),
            mint_authority: Address::unset(),
            collateral_token: Address::unset(),
            collateral_minted: 0,
            vault: Address::unset(),
            winner: Address::unset(),
            expiration_time: 0,
            outcome1,
            outcome2,
        }
    }

    /// What `initialize` does: rejected with `AlreadyInitialized` on a
    /// configured market, otherwise records every configuration field and
    /// the two outcome addresses, leaving `collateral_minted` and `winner`
    /// untouched.
    pub open spec fn initialize_transition(
        self,
        nonce: u8,
        signer: Address,
        oracle: Address,
        collateral_token: Address,
        vault: Address,
        mint_authority: Address,
        expiration_time: i64,
        outcome1: Address,
        outcome2: Address,
    ) -> (InternalState, Result<(), ErrorCode>) {
        if self.is_initialized() {
            (self, Err(ErrorCode::AlreadyInitialized))
        } else {
            (
                InternalState {
                    nonce,
                    signer,
                    oracle,
                    collateral_token,
                    vault,
                    mint_authority,
                    expiration_time,
                    outcome1: Outcome { address: outcome1, ..self.outcome1 },
                    outcome2: Outcome { address: outcome2, ..self.outcome2 },
                    ..self
                },
                Ok(()),
            )
        }
    }

    /// Configures the market, once.
    ///
    /// Fails with `AlreadyInitialized` on a market that is already
    /// configured; otherwise stores all fields. No ledger command is issued.
    pub fn initialize(
        &mut self,
        nonce: u8,
        signer: Address,
        oracle: Address,
        collateral_token: Address,
        vault: Address,
        mint_authority: Address,
        expiration_time: i64,
        outcome1: Address,
        outcome2: Address,
    ) -> (r: Result<(), ErrorCode>)
        ensures
            *final(self) == old(self).initialize_transition(
                nonce, signer, oracle, collateral_token, vault, mint_authority,
                expiration_time, outcome1, outcome2,
            ).0,
            r == old(self).initialize_transition(
                nonce, signer, oracle, collateral_token, vault, mint_authority,
                expiration_time, outcome1, outcome2,
            ).1,
    {
        if self.expiration_time != 0 || !self.oracle.is_unset() {
            return Err(ErrorCode::AlreadyInitialized);
        }
        self.signer = signer;
        self.nonce = nonce;
        self.oracle = oracle;
        self.collateral_token = collateral_token;
        self.vault = vault;
        self.mint_authority = mint_authority;
        self.expiration_time = expiration_time;
        self.outcome1.address = outcome1;
        self.outcome2.address = outcome2;
        Ok(())
    }

    /// The commands of a successful complete-set mint: `amount` new units of
    /// each outcome, created in the caller-designated recipient accounts.
    pub open spec fn mint_commands(self, accounts: Mint, amount: u64) -> Seq<LedgerCommand> {
        seq![
            LedgerCommand::MintTo {
                asset: self.outcome1.address,
                to: accounts.to1,
                amount,
                authority: self.authority(),
            },
            LedgerCommand::MintTo {
                asset: self.outcome2.address,
                to: accounts.to2,
                amount,
                authority: self.authority(),
            },
        ]
    }

    /// What `mint_complete_sets` does. The newly observed deposit is the
    /// vault balance beyond what is already accounted for; the caller must
    /// mint exactly that much, and exactly one paired mint of each outcome
    /// is delegated to the ledger.
    pub open spec fn mint_transition(self, accounts: Mint, amount: u64) -> (
        InternalState,
        Result<Seq<LedgerCommand>, ErrorCode>,
    ) {
        let deposited = accounts.collateral_balance - self.collateral_minted;
        if deposited == 0 {
            (self, Err(ErrorCode::ZeroDeposit))
        } else if deposited != amount {
            (self, Err(ErrorCode::DepositMismatch))
        } else {
            (
                InternalState { collateral_minted: accounts.collateral_balance, ..self },
                Ok(self.mint_commands(accounts, amount)),
            )
        }
    }

    /// Mints a complete set: `amount` units of each outcome against the
    /// newly observed deposit.
    ///
    /// The caller must observe a vault balance of at least
    /// `collateral_minted`: the new deposit is computed as their difference.
    /// Fails with `ZeroDeposit` when the vault holds nothing beyond
    /// `collateral_minted`, and with `DepositMismatch` when the new deposit
    /// differs from `amount`. On success returns the paired mint commands
    /// and absorbs the deposit into `collateral_minted`; the host must apply
    /// both commands atomically and commit this state only if both succeed.
    pub fn mint_complete_sets(&mut self, accounts: Mint, amount: u64) -> (r: Result<
        Vec<LedgerCommand>,
        ErrorCode,
    >)
        requires
            accounts.collateral_balance >= old(self).collateral_minted,
        ensures
            *final(self) == old(self).mint_transition(accounts, amount).0,
            commands_match(r, old(self).mint_transition(accounts, amount).1),
    {
        let deposited = accounts.collateral_balance - self.collateral_minted;
        if deposited == 0 {
            return Err(ErrorCode::ZeroDeposit);
        }
        if deposited != amount {
            return Err(ErrorCode::DepositMismatch);
        }
        let authority = derive_authority(self.signer, self.nonce);
        let mut commands: Vec<LedgerCommand> = Vec::new();
        commands.push(LedgerCommand::MintTo {
            asset: self.outcome1.address,
            to: accounts.to1,
            amount,
            authority,
        });
        commands.push(LedgerCommand::MintTo {
            asset: self.outcome2.address,
            to: accounts.to2,
            amount,
            authority,
        });
        proof {
            assert(commands@ =~= old(self).mint_commands(accounts, amount));
        }
        self.collateral_minted = accounts.collateral_balance;
        Ok(commands)
    }

    /// The commands of a complete-set redemption: burn `amount` of each
    /// outcome and return `amount` of collateral from the vault.
    pub open spec fn redeem_commands(self, accounts: RedeemCompleteSets, amount: u64) -> Seq<
        LedgerCommand,
    > {
        seq![
            LedgerCommand::Burn {
                asset: self.outcome1.address,
                from: accounts.to1,
                amount,
                authority: self.authority(),
            },
            LedgerCommand::Burn {
                asset: self.outcome2.address,
                from: accounts.to2,
                amount,
                authority: self.authority(),
            },
            LedgerCommand::Transfer {
                asset: self.collateral_token,
                from: self.vault,
                to: accounts.to,
                amount,
                authority: self.authority(),
            },
        ]
    }

    /// What `redeem_complete_sets` does: no market-side precondition and no
    /// state change — burning an equal pair of opposing positions is
    /// economically neutral before and after resolution. The ledger's own
    /// balance checks are the backstop against over-redemption.
    pub open spec fn redeem_transition(self, accounts: RedeemCompleteSets, amount: u64) -> (
        InternalState,
        Result<Seq<LedgerCommand>, ErrorCode>,
    ) {
        (self, Ok(self.redeem_commands(accounts, amount)))
    }

    /// Redeems a complete set: burns `amount` of each outcome and returns
    /// `amount` of collateral from the vault to the caller.
    ///
    /// Available pre- and post-resolution. The market state is unchanged;
    /// whether the caller actually holds `amount` of each outcome is checked
    /// by the ledger when the burn commands are applied.
    pub fn redeem_complete_sets(&mut self, accounts: RedeemCompleteSets, amount: u64) -> (r: Result<
        Vec<LedgerCommand>,
        ErrorCode,
    >)
        ensures
            *final(self) == *old(self),
            commands_match(r, old(self).redeem_transition(accounts, amount).1),
    {
        let authority = derive_authority(self.signer, self.nonce);
        let mut commands: Vec<LedgerCommand> = Vec::new();
        commands.push(LedgerCommand::Burn {
            asset: self.outcome1.address,
            from: accounts.to1,
            amount,
            authority,
        });
        commands.push(LedgerCommand::Burn {
            asset: self.outcome2.address,
            from: accounts.to2,
            amount,
            authority,
        });
        commands.push(LedgerCommand::Transfer {
            asset: self.collateral_token,
            from: self.vault,
            to: accounts.to,
            amount,
            authority,
        });
        proof {
            assert(commands@ =~= old(self).redeem_commands(accounts, amount));
        }
        Ok(commands)
    }

    /// What `resolve_market` does: rejected with `ExpirationNotPassed`
    /// before the expiration time, with `OracleMismatch` for any caller but
    /// the stored oracle, and with `WinnerAlreadySet` once a winner is
    /// recorded; otherwise records the reported winner, permanently.
    pub open spec fn resolve_transition(self, accounts: FinishMarket) -> (
        InternalState,
        Result<(), ErrorCode>,
    ) {
        if accounts.current_time < self.expiration_time {
            (self, Err(ErrorCode::ExpirationNotPassed))
        } else if accounts.oracle != self.oracle {
            (self, Err(ErrorCode::OracleMismatch))
        } else if !self.winner.spec_is_unset() {
            (self, Err(ErrorCode::WinnerAlreadySet))
        } else {
            (InternalState { winner: accounts.winner, ..self }, Ok(()))
        }
    }

    /// Resolves the market: the single transition from open to resolved.
    ///
    /// Only honoured at or after `expiration_time`, only from the stored
    /// oracle, and only while no winner is recorded; on success records the
    /// reported winner. No ledger command is issued, and there is no reverse
    /// transition.
    pub fn resolve_market(&mut self, accounts: FinishMarket) -> (r: Result<(), ErrorCode>)
        ensures
            *final(self) == old(self).resolve_transition(accounts).0,
            r == old(self).resolve_transition(accounts).1,
    {
        if accounts.current_time < self.expiration_time {
            return Err(ErrorCode::ExpirationNotPassed);
        }
        if accounts.oracle != self.oracle {
            return Err(ErrorCode::OracleMismatch);
        }
        if !self.winner.is_unset() {
            return Err(ErrorCode::WinnerAlreadySet);
        }
        self.winner = accounts.winner;
        Ok(())
    }

    /// The commands of a successful claim: burn `amount` of the winning
    /// outcome from the caller and pay `amount` of collateral out of the
    /// vault.
    pub open spec fn claim_commands(self, accounts: ClaimProfits, amount: u64) -> Seq<
        LedgerCommand,
    > {
        seq![
            LedgerCommand::Burn {
                asset: self.winner,
                from: accounts.winner_from,
                amount,
                authority: self.authority(),
            },
            LedgerCommand::Transfer {
                asset: self.collateral_token,
                from: self.vault,
                to: accounts.to,
                amount,
                authority: self.authority(),
            },
        ]
    }

    /// What `claim_profits` does: rejected with `MarketNotSettled` while no
    /// winner is recorded, with `WinnerMismatch` when the presented outcome
    /// is not the winner, and with `NoProfits` for a zero amount; otherwise
    /// delegates the burn-and-payout pair, leaving the state unchanged.
    pub open spec fn claim_transition(self, accounts: ClaimProfits, amount: u64) -> (
        InternalState,
        Result<Seq<LedgerCommand>, ErrorCode>,
    ) {
        if self.winner.spec_is_unset() {
            (self, Err(ErrorCode::MarketNotSettled))
        } else if self.winner != accounts.winner_outcome {
            (self, Err(ErrorCode::WinnerMismatch))
        } else if amount == 0 {
            (self, Err(ErrorCode::NoProfits))
        } else {
            (self, Ok(self.claim_commands(accounts, amount)))
        }
    }

    /// Claims profits on the winning outcome: burns `amount` of it and pays
    /// `amount` of collateral from the vault to the caller.
    ///
    /// Only valid on a resolved market, only for the recorded winner, and
    /// only for a positive amount; losing-outcome tokens have no claim path
    /// and settle to zero value by omission. The market state is unchanged.
    pub fn claim_profits(&mut self, accounts: ClaimProfits, amount: u64) -> (r: Result<
        Vec<LedgerCommand>,
        ErrorCode,
    >)
        ensures
            *final(self) == *old(self),
            commands_match(r, old(self).claim_transition(accounts, amount).1),
    {
        if self.winner.is_unset() {
            return Err(ErrorCode::MarketNotSettled);
        }
        if self.winner != accounts.winner_outcome {
            return Err(ErrorCode::WinnerMismatch);
        }
        if amount == 0 {
            return Err(ErrorCode::NoProfits);
        }
        let authority = derive_authority(self.signer, self.nonce);
        let mut commands: Vec<LedgerCommand> = Vec::new();
        commands.push(LedgerCommand::Burn {
            asset: self.winner,
            from: accounts.winner_from,
            amount,
            authority,
        });
        commands.push(LedgerCommand::Transfer {
            asset: self.collateral_token,
            from: self.vault,
            to: accounts.to,
            amount,
            authority,
        });
        proof {
            assert(commands@ =~= old(self).claim_commands(accounts, amount));
        }
        Ok(commands)
    }
}

} // verus!
