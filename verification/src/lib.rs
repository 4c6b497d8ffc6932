//! Settlement engine for a binary-outcome prediction market.
//!
//! The library is the market state machine: it tracks one market's
//! configuration, validates every operation against the market's lifecycle
//! and collateralization rules, and describes the token-ledger effects of a
//! successful operation as explicit [`ledger::LedgerCommand`] values. The
//! ledger itself (balances, mint/burn/transfer bookkeeping) is an external
//! collaborator: a host applies the commands of one operation atomically and
//! commits the new market state only when all of them succeeded.

pub mod addresses;
pub mod errors;
pub mod history;
pub mod laws;
pub mod ledger;
pub mod market;
