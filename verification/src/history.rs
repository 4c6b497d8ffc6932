//! Whole-history guarantees of the market state machine.
//!
//! One [`MarketOp`] value names an operation together with its inputs;
//! [`step`] is the operation's specification transition, and [`run`] drives a
//! market through a whole operation sequence, collecting the ledger commands
//! of the successful steps. On top of these, full collateralization is proved
//! once and for all: however a configured market is driven, it issues exactly
//! as much of each outcome asset as it absorbs into `collateral_minted`.

use vstd::prelude::*;

use crate::addresses::Address;
use crate::errors::ErrorCode;
use crate::ledger::{
    lemma_minted_total_concat, lemma_minted_total_three, lemma_minted_total_two, minted_total,
    LedgerCommand,
};
use crate::market::{ClaimProfits, FinishMarket, InternalState, Mint, RedeemCompleteSets};

verus! {

/// One market operation with its inputs.
#[derive(Clone, Copy, PartialEq, Eq, Structural, Debug)]
pub enum MarketOp {
    Initialize {
        nonce: u8,
        signer: Address,
        oracle: Address,
        collateral_token: Address,
        vault: Address,
        mint_authority: Address,
        expiration_time: i64,
        outcome1: Address,
        outcome2: Address,
    },
    MintCompleteSets { accounts: Mint, amount: u64 },
    RedeemCompleteSets { accounts: RedeemCompleteSets, amount: u64 },
    ResolveMarket { accounts: FinishMarket },
    ClaimProfits { accounts: ClaimProfits, amount: u64 },
}

/// The specification transition of one operation: the next market state and
/// either the ledger commands it delegates (none for initialization and
/// resolution) or the error it fails with.
pub open spec fn step(m: InternalState, op: MarketOp) -> (
    InternalState,
    Result<Seq<LedgerCommand>, ErrorCode>,
) {
    match op {
        MarketOp::Initialize {
            nonce,
            signer,
            oracle,
            collateral_token,
            vault,
            mint_authority,
            expiration_time,
            outcome1,
            outcome2,
        } => {
            let t = m.initialize_transition(
                nonce, signer, oracle, collateral_token, vault, mint_authority,
                expiration_time, outcome1, outcome2,
            );
            (
                t.0,
                match t.1 {
                    Ok(_) => Ok(Seq::empty()),
                    Err(e) => Err(e),
                },
            )
        },
        MarketOp::MintCompleteSets { accounts, amount } => m.mint_transition(accounts, amount),
        MarketOp::RedeemCompleteSets { accounts, amount } => m.redeem_transition(accounts, amount),
        MarketOp::ResolveMarket { accounts } => {
            let t = m.resolve_transition(accounts);
            (
                t.0,
                match t.1 {
                    Ok(_) => Ok(Seq::empty()),
                    Err(e) => Err(e),
                },
            )
        },
        MarketOp::ClaimProfits { accounts, amount } => m.claim_transition(accounts, amount),
    }
}

/// Drives a market through a whole operation sequence, collecting the
/// commands of the successful steps; a failed step contributes nothing and
/// leaves the state as it was.
pub open spec fn run(m: InternalState, ops: Seq<MarketOp>) -> (InternalState, Seq<LedgerCommand>)
    decreases ops.len(),
{
    if ops.len() == 0 {
        (m, Seq::empty())
    } else {
        let first = step(m, ops[0]);
        let issued = match first.1 {
            Ok(cs) => cs,
            Err(_) => Seq::empty(),
        };
        let rest = run(first.0, ops.drop_first());
        (rest.0, issued + rest.1)
    }
}

/// A market that is initialized and has `y` and `n` recorded as its two
/// outcome assets.
pub open spec fn configured(m: InternalState, y: Address, n: Address) -> bool {
    &&& m.is_initialized()
    &&& m.outcome1.address == y
    &&& m.outcome2.address == n
}

/// One step of full collateralization: every operation on a configured
/// market keeps it configured, never decreases `collateral_minted`, and
/// issues exactly the growth of `collateral_minted` in each outcome asset.
pub proof fn lemma_step_collateralization(m: InternalState, op: MarketOp, y: Address, n: Address)
    requires
        configured(m, y, n),
        y != n,
    ensures
        configured(step(m, op).0, y, n),
        step(m, op).0.collateral_minted >= m.collateral_minted,
        ({
            let issued = match step(m, op).1 {
                Ok(cs) => cs,
                Err(_) => Seq::<LedgerCommand>::empty(),
            };
            &&& minted_total(issued, y) == step(m, op).0.collateral_minted
                - m.collateral_minted
            &&& minted_total(issued, n) == step(m, op).0.collateral_minted
                - m.collateral_minted
        }),
{
    match op {
        MarketOp::MintCompleteSets { accounts, amount } => {
            if m.mint_transition(accounts, amount).1 is Ok {
                let cs = m.mint_commands(accounts, amount);
                lemma_minted_total_two(cs[0], cs[1], y);
                lemma_minted_total_two(cs[0], cs[1], n);
            }
        },
        MarketOp::RedeemCompleteSets { accounts, amount } => {
            let cs = m.redeem_commands(accounts, amount);
            lemma_minted_total_three(cs[0], cs[1], cs[2], y);
            lemma_minted_total_three(cs[0], cs[1], cs[2], n);
        },
        MarketOp::ClaimProfits { accounts, amount } => {
            if m.claim_transition(accounts, amount).1 is Ok {
                let cs = m.claim_commands(accounts, amount);
                lemma_minted_total_two(cs[0], cs[1], y);
                lemma_minted_total_two(cs[0], cs[1], n);
            }
        },
        _ => {},
    }
}

/// Full collateralization: however a configured market with distinct outcome
/// assets is driven, it stays configured, `collateral_minted` never
/// decreases, and the quantity of each outcome asset ever issued equals the
/// growth of `collateral_minted` — every minted pair is backed by exactly
/// that much newly absorbed collateral.
pub proof fn lemma_full_collateralization(
    m: InternalState,
    ops: Seq<MarketOp>,
    y: Address,
    n: Address,
)
    requires
        configured(m, y, n),
        y != n,
    ensures
        configured(run(m, ops).0, y, n),
        run(m, ops).0.collateral_minted >= m.collateral_minted,
        minted_total(run(m, ops).1, y) == run(m, ops).0.collateral_minted
            - m.collateral_minted,
        minted_total(run(m, ops).1, n) == run(m, ops).0.collateral_minted
            - m.collateral_minted,
    decreases ops.len(),
{
    if ops.len() > 0 {
        lemma_step_collateralization(m, ops[0], y, n);
        let first = step(m, ops[0]);
        let issued = match first.1 {
            Ok(cs) => cs,
            Err(_) => Seq::<LedgerCommand>::empty(),
        };
        lemma_full_collateralization(first.0, ops.drop_first(), y, n);
        lemma_minted_total_concat(issued, run(first.0, ops.drop_first()).1, y);
        lemma_minted_total_concat(issued, run(first.0, ops.drop_first()).1, n);
    }
}

/// Full collateralization from creation: a blank market, initialized with an
/// oracle or an expiration time and two distinct outcome assets, and then
/// driven through any operation sequence, has issued exactly
/// `collateral_minted` units of each outcome.
pub proof fn lemma_collateralization_from_creation(
    m: InternalState,
    nonce: u8,
    signer: Address,
    oracle: Address,
    collateral_token: Address,
    vault: Address,
    mint_authority: Address,
    expiration_time: i64,
    outcome1: Address,
    outcome2: Address,
    ops: Seq<MarketOp>,
)
    requires
        m.is_blank(),
        expiration_time != 0 || !oracle.spec_is_unset(),
        outcome1 != outcome2,
    ensures
        ({
            let configured_market = m.initialize_transition(
                nonce, signer, oracle, collateral_token, vault, mint_authority,
                expiration_time, outcome1, outcome2,
            ).0;
            let (end, issued) = run(configured_market, ops);
            &&& minted_total(issued, outcome1) == end.collateral_minted
            &&& minted_total(issued, outcome2) == end.collateral_minted
        }),
{
    let configured_market = m.initialize_transition(
        nonce, signer, oracle, collateral_token, vault, mint_authority,
        expiration_time, outcome1, outcome2,
    ).0;
    lemma_full_collateralization(configured_market, ops, outcome1, outcome2);
}

} // verus!
