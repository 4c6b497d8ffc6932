//! Error codes returned by the market operations.
//!
//! Every failed precondition aborts the whole operation with a code that
//! identifies exactly which rule was violated; no error is swallowed or
//! defaulted, and a failed operation leaves the market state unchanged.

use vstd::prelude::*;

verus! {

#[derive(Clone, Copy, PartialEq, Eq, Structural, Debug)]
pub enum ErrorCode {
    /// Initialization was attempted on a market that is already configured.
    AlreadyInitialized,
    /// Minting was requested while the vault holds no new deposit.
    ZeroDeposit,
    /// The newly observed deposit differs from the amount to be minted.
    DepositMismatch,
    /// Resolution was attempted before the market's expiration time.
    ExpirationNotPassed,
    /// Resolution was submitted by someone other than the stored oracle.
    OracleMismatch,
    /// Resolution was attempted after a winner had already been recorded.
    WinnerAlreadySet,
    /// A claim was attempted before the market was resolved.
    MarketNotSettled,
    /// A claim of zero profits was attempted.
    NoProfits,
    /// The outcome presented for a claim is not the recorded winner.
    WinnerMismatch,
}

} // verus!
