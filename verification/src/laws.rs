//! The market's economic and lifecycle guarantees, stated and proved once
//! over the specification transitions that the executable operations are
//! verified against.

use vstd::prelude::*;

use crate::addresses::Address;
use crate::errors::ErrorCode;
use crate::ledger::{
    lemma_outflow_three, lemma_outflow_two, lemma_supply_delta_three, lemma_supply_delta_two,
    outflow, supply_delta, LedgerCommand,
};
use crate::market::{ClaimProfits, FinishMarket, InternalState, Mint, RedeemCompleteSets};

verus! {

/// Single initialization: an initialization that records an oracle or a
/// nonzero expiration time succeeds exactly once; on the state it produces,
/// every further initialization fails with `AlreadyInitialized` and changes
/// nothing, regardless of its arguments.
pub proof fn lemma_single_initialization(
    m: InternalState,
    nonce: u8,
    signer: Address,
    oracle: Address,
    collateral_token: Address,
    vault: Address,
    mint_authority: Address,
    expiration_time: i64,
    outcome1: Address,
    outcome2: Address,
    nonce2: u8,
    signer2: Address,
    oracle2: Address,
    collateral_token2: Address,
    vault2: Address,
    mint_authority2: Address,
    expiration_time2: i64,
    outcome1b: Address,
    outcome2b: Address,
)
    requires
        !m.is_initialized(),
        expiration_time != 0 || !oracle.spec_is_unset(),
    ensures
        m.initialize_transition(
            nonce, signer, oracle, collateral_token, vault, mint_authority,
            expiration_time, outcome1, outcome2,
        ).1 == Ok::<(), ErrorCode>(()),
        ({
            let first = m.initialize_transition(
                nonce, signer, oracle, collateral_token, vault, mint_authority,
                expiration_time, outcome1, outcome2,
            ).0;
            let again = first.initialize_transition(
                nonce2, signer2, oracle2, collateral_token2, vault2, mint_authority2,
                expiration_time2, outcome1b, outcome2b,
            );
            &&& first.is_initialized()
            &&& again.1 == Err::<(), ErrorCode>(ErrorCode::AlreadyInitialized)
            &&& again.0 == first
        }),
{
}

/// Mint symmetry: every successful complete-set mint creates exactly the same
/// quantity of both outcomes — `amount` of each when the two outcome assets
/// are distinct — takes no collateral out of the vault, and advances
/// `collateral_minted` by exactly `amount`.
pub proof fn lemma_mint_symmetry(m: InternalState, accounts: Mint, amount: u64)
    requires
        m.mint_transition(accounts, amount).1 is Ok,
    ensures
        m.mint_transition(accounts, amount).1 matches Ok(cs) && {
            let after = m.mint_transition(accounts, amount).0;
            &&& supply_delta(cs, m.outcome1.address) == supply_delta(cs, m.outcome2.address)
            &&& m.outcome1.address != m.outcome2.address ==> supply_delta(
                cs,
                m.outcome1.address,
            ) == amount
            &&& outflow(cs, m.collateral_token, m.vault) == 0
            &&& after.collateral_minted == m.collateral_minted + amount
        },
{
    let cs = m.mint_commands(accounts, amount);
    lemma_supply_delta_two(cs[0], cs[1], m.outcome1.address);
    lemma_supply_delta_two(cs[0], cs[1], m.outcome2.address);
    lemma_outflow_two(cs[0], cs[1], m.collateral_token, m.vault);
}

/// Deposit–mint equality: minting fails with `ZeroDeposit` when the vault
/// holds nothing beyond `collateral_minted` (whatever the requested amount,
/// zero included), fails with `DepositMismatch` whenever the newly observed
/// deposit is nonzero and differs from the requested amount, and succeeds
/// exactly when the deposit is nonzero and equals it; every failure leaves
/// the state unchanged.
pub proof fn lemma_deposit_mint_equality(m: InternalState, accounts: Mint, amount: u64)
    ensures
        accounts.collateral_balance == m.collateral_minted ==> m.mint_transition(
            accounts,
            amount,
        ) == (m, Err::<Seq<LedgerCommand>, ErrorCode>(ErrorCode::ZeroDeposit)),
        accounts.collateral_balance != m.collateral_minted && accounts.collateral_balance
            - m.collateral_minted != amount ==> m.mint_transition(accounts, amount) == (
            m,
            Err::<Seq<LedgerCommand>, ErrorCode>(ErrorCode::DepositMismatch),
        ),
        accounts.collateral_balance - m.collateral_minted == amount && amount != 0
            ==> m.mint_transition(accounts, amount).1 is Ok,
{
}

/// Redemption neutrality: a complete-set redemption always succeeds on the
/// market's side, changes no market state, destroys the same quantity of both
/// outcomes — `amount` of each when the two outcome assets are distinct — and
/// pays exactly `amount` of collateral out of the vault (whenever the payout
/// account is not the vault itself, in which case nothing leaves it). Whether
/// the caller actually holds the burned positions is the ledger's own check.
pub proof fn lemma_redeem_neutrality(
    m: InternalState,
    accounts: RedeemCompleteSets,
    amount: u64,
)
    ensures
        m.redeem_transition(accounts, amount).0 == m,
        m.redeem_transition(accounts, amount).1 matches Ok(cs) && {
            &&& supply_delta(cs, m.outcome1.address) == supply_delta(cs, m.outcome2.address)
            &&& m.outcome1.address != m.outcome2.address ==> supply_delta(
                cs,
                m.outcome1.address,
            ) == -(amount as int)
            &&& accounts.to != m.vault ==> outflow(cs, m.collateral_token, m.vault) == amount
        },
{
    let cs = m.redeem_commands(accounts, amount);
    lemma_supply_delta_three(cs[0], cs[1], cs[2], m.outcome1.address);
    lemma_supply_delta_three(cs[0], cs[1], cs[2], m.outcome2.address);
    lemma_outflow_three(cs[0], cs[1], cs[2], m.collateral_token, m.vault);
}

/// Resolution write-once: after a resolution recording a set winner address
/// succeeds, every further resolution fails and changes nothing; when the
/// later call passes the time and oracle checks, its error is
/// `WinnerAlreadySet`.
pub proof fn lemma_resolution_write_once(
    m: InternalState,
    first: FinishMarket,
    second: FinishMarket,
)
    requires
        m.resolve_transition(first).1 is Ok,
        !first.winner.spec_is_unset(),
    ensures
        ({
            let resolved = m.resolve_transition(first).0;
            let again = resolved.resolve_transition(second);
            &&& resolved.winner == first.winner
            &&& resolved.is_resolved()
            &&& again.1 is Err
            &&& again.0 == resolved
            &&& second.current_time >= resolved.expiration_time && second.oracle
                == resolved.oracle ==> again.1 == Err::<(), ErrorCode>(
                ErrorCode::WinnerAlreadySet,
            )
        }),
{
}

/// Winner immutability: once a winner is recorded, no operation writes the
/// winner field — initialization, minting, redemption and claiming never
/// touch it, and a further resolution is rejected.
pub proof fn lemma_winner_immutable(
    m: InternalState,
    nonce: u8,
    signer: Address,
    oracle: Address,
    collateral_token: Address,
    vault: Address,
    mint_authority: Address,
    expiration_time: i64,
    outcome1: Address,
    outcome2: Address,
    mint_accounts: Mint,
    mint_amount: u64,
    redeem_accounts: RedeemCompleteSets,
    redeem_amount: u64,
    resolve_accounts: FinishMarket,
    claim_accounts: ClaimProfits,
    claim_amount: u64,
)
    requires
        m.is_resolved(),
    ensures
        m.initialize_transition(
            nonce, signer, oracle, collateral_token, vault, mint_authority,
            expiration_time, outcome1, outcome2,
        ).0.winner == m.winner,
        m.mint_transition(mint_accounts, mint_amount).0.winner == m.winner,
        m.redeem_transition(redeem_accounts, redeem_amount).0.winner == m.winner,
        m.resolve_transition(resolve_accounts).0.winner == m.winner,
        m.claim_transition(claim_accounts, claim_amount).0.winner == m.winner,
{
}

/// Resolution gating: resolution fails with `ExpirationNotPassed` whenever
/// the supplied time is before the expiration time, and — once the time gate
/// is passed — with `OracleMismatch` whenever the caller is not the stored
/// oracle. A caller other than the stored oracle never resolves the market,
/// whatever the time, and every failure leaves the state unchanged.
pub proof fn lemma_resolution_gating(m: InternalState, accounts: FinishMarket)
    ensures
        accounts.current_time < m.expiration_time ==> m.resolve_transition(accounts) == (
            m,
            Err::<(), ErrorCode>(ErrorCode::ExpirationNotPassed),
        ),
        accounts.current_time >= m.expiration_time && accounts.oracle != m.oracle
            ==> m.resolve_transition(accounts) == (
            m,
            Err::<(), ErrorCode>(ErrorCode::OracleMismatch),
        ),
        accounts.oracle != m.oracle ==> m.resolve_transition(accounts).1 is Err
            && m.resolve_transition(accounts).0 == m,
{
}

/// Claim correctness: claiming before resolution fails with
/// `MarketNotSettled`; presenting anything but the recorded winner fails with
/// `WinnerMismatch`; a zero amount fails with `NoProfits`; and a successful
/// claim burns exactly `amount` of the winning outcome and, whenever the
/// payout account is not the vault itself, pays exactly `amount` of
/// collateral out of the vault, leaving the market state unchanged.
pub proof fn lemma_claim_correctness(m: InternalState, accounts: ClaimProfits, amount: u64)
    ensures
        !m.is_resolved() ==> m.claim_transition(accounts, amount) == (
            m,
            Err::<Seq<LedgerCommand>, ErrorCode>(ErrorCode::MarketNotSettled),
        ),
        m.is_resolved() && accounts.winner_outcome != m.winner ==> m.claim_transition(
            accounts,
            amount,
        ) == (m, Err::<Seq<LedgerCommand>, ErrorCode>(ErrorCode::WinnerMismatch)),
        m.is_resolved() && accounts.winner_outcome == m.winner && amount == 0
            ==> m.claim_transition(accounts, amount) == (
            m,
            Err::<Seq<LedgerCommand>, ErrorCode>(ErrorCode::NoProfits),
        ),
        m.is_resolved() && accounts.winner_outcome == m.winner && amount != 0 ==> (
        m.claim_transition(accounts, amount).1 matches Ok(cs) && {
            &&& m.claim_transition(accounts, amount).0 == m
            &&& supply_delta(cs, m.winner) == -(amount as int)
            &&& accounts.to != m.vault ==> outflow(cs, m.collateral_token, m.vault) == amount
        }),
{
    if m.is_resolved() && accounts.winner_outcome == m.winner && amount != 0 {
        let cs = m.claim_commands(accounts, amount);
        lemma_supply_delta_two(cs[0], cs[1], m.winner);
        lemma_outflow_two(cs[0], cs[1], m.collateral_token, m.vault);
    }
}

} // verus!
