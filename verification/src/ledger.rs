//! Typed commands against the external token ledger.
//!
//! The ledger (balance bookkeeping, mint/burn/transfer primitives) is an
//! external collaborator. A successful market operation returns the exact
//! sequence of commands the host must apply to it; the host applies them
//! all-or-nothing and commits the new market state only when every command
//! succeeded, so a ledger-side rejection (say, an insufficient balance)
//! leaves both ledger and market untouched.

use vstd::prelude::*;

use crate::addresses::{Address, DerivedAuthority};

verus! {

/// One delegated ledger mutation, authorized by the market's derived
/// authority.
#[derive(Clone, Copy, PartialEq, Eq, Structural, Debug)]
pub enum LedgerCommand {
    /// Create `amount` new units of `asset` in the account `to`.
    MintTo { asset: Address, to: Address, amount: u64, authority: DerivedAuthority },
    /// Destroy `amount` units of `asset` held in the account `from`.
    Burn { asset: Address, from: Address, amount: u64, authority: DerivedAuthority },
    /// Move `amount` units of `asset` from the account `from` to `to`.
    Transfer { asset: Address, from: Address, to: Address, amount: u64, authority: DerivedAuthority },
}

/// How one command changes the total supply of `asset`: a mint creates
/// units, a burn destroys them, a transfer only moves them.
pub open spec fn command_supply_delta(c: LedgerCommand, asset: Address) -> int {
    match c {
        LedgerCommand::MintTo { asset: a, amount, .. } => if a == asset {
            amount as int
        } else {
            0
        },
        LedgerCommand::Burn { asset: a, amount, .. } => if a == asset {
            -(amount as int)
        } else {
            0
        },
        LedgerCommand::Transfer { .. } => 0,
    }
}

/// How a command sequence changes the total supply of `asset`.
pub open spec fn supply_delta(cs: Seq<LedgerCommand>, asset: Address) -> int
    decreases cs.len(),
{
    if cs.len() == 0 {
        0
    } else {
        command_supply_delta(cs[0], asset) + supply_delta(cs.drop_first(), asset)
    }
}

/// How much `asset` one command pays out of the account `from` (transfers
/// away from it, net of transfers back into it).
pub open spec fn command_outflow(c: LedgerCommand, asset: Address, account: Address) -> int {
    match c {
        LedgerCommand::Transfer { asset: a, from, to, amount, .. } => if a == asset {
            (if from == account {
                amount as int
            } else {
                0
            }) - (if to == account {
                amount as int
            } else {
                0
            })
        } else {
            0
        },
        _ => 0,
    }
}

/// How much `asset` a command sequence pays out of the account `from`.
pub open spec fn outflow(cs: Seq<LedgerCommand>, asset: Address, account: Address) -> int
    decreases cs.len(),
{
    if cs.len() == 0 {
        0
    } else {
        command_outflow(cs[0], asset, account) + outflow(cs.drop_first(), asset, account)
    }
}

/// How many units of `asset` one command creates: only a mint counts, and
/// nothing is subtracted — this is cumulative issuance, not net supply.
pub open spec fn command_minted(c: LedgerCommand, asset: Address) -> int {
    match c {
        LedgerCommand::MintTo { asset: a, amount, .. } => if a == asset {
            amount as int
        } else {
            0
        },
        _ => 0,
    }
}

/// How many units of `asset` a command sequence creates in total.
pub open spec fn minted_total(cs: Seq<LedgerCommand>, asset: Address) -> int
    decreases cs.len(),
{
    if cs.len() == 0 {
        0
    } else {
        command_minted(cs[0], asset) + minted_total(cs.drop_first(), asset)
    }
}

/// Unfolds `minted_total` over a two-command sequence.
pub proof fn lemma_minted_total_two(c0: LedgerCommand, c1: LedgerCommand, asset: Address)
    ensures
        minted_total(seq![c0, c1], asset) == command_minted(c0, asset)
            + command_minted(c1, asset),
{
    reveal_with_fuel(minted_total, 3);
    let cs = seq![c0, c1];
    assert(cs.drop_first() =~= seq![c1]);
    assert(seq![c1].drop_first() =~= Seq::<LedgerCommand>::empty());
}

/// Unfolds `minted_total` over a three-command sequence.
pub proof fn lemma_minted_total_three(
    c0: LedgerCommand,
    c1: LedgerCommand,
    c2: LedgerCommand,
    asset: Address,
)
    ensures
        minted_total(seq![c0, c1, c2], asset) == command_minted(c0, asset)
            + command_minted(c1, asset) + command_minted(c2, asset),
{
    reveal_with_fuel(minted_total, 2);
    let cs = seq![c0, c1, c2];
    assert(cs.drop_first() =~= seq![c1, c2]);
    lemma_minted_total_two(c1, c2, asset);
}

/// Cumulative issuance adds up over concatenation.
pub proof fn lemma_minted_total_concat(a: Seq<LedgerCommand>, b: Seq<LedgerCommand>, asset: Address)
    ensures
        minted_total(a + b, asset) == minted_total(a, asset) + minted_total(b, asset),
    decreases a.len(),
{
    if a.len() == 0 {
        assert(a + b =~= b);
    } else {
        assert((a + b).drop_first() =~= a.drop_first() + b);
        lemma_minted_total_concat(a.drop_first(), b, asset);
    }
}

/// Unfolds `supply_delta` over a two-command sequence.
pub proof fn lemma_supply_delta_two(c0: LedgerCommand, c1: LedgerCommand, asset: Address)
    ensures
        supply_delta(seq![c0, c1], asset) == command_supply_delta(c0, asset)
            + command_supply_delta(c1, asset),
{
    reveal_with_fuel(supply_delta, 3);
    let cs = seq![c0, c1];
    assert(cs.drop_first() =~= seq![c1]);
    assert(seq![c1].drop_first() =~= Seq::<LedgerCommand>::empty());
}

/// Unfolds `supply_delta` over a three-command sequence.
pub proof fn lemma_supply_delta_three(
    c0: LedgerCommand,
    c1: LedgerCommand,
    c2: LedgerCommand,
    asset: Address,
)
    ensures
        supply_delta(seq![c0, c1, c2], asset) == command_supply_delta(c0, asset)
            + command_supply_delta(c1, asset) + command_supply_delta(c2, asset),
{
    reveal_with_fuel(supply_delta, 2);
    let cs = seq![c0, c1, c2];
    assert(cs.drop_first() =~= seq![c1, c2]);
    lemma_supply_delta_two(c1, c2, asset);
}

/// Unfolds `outflow` over a two-command sequence.
pub proof fn lemma_outflow_two(
    c0: LedgerCommand,
    c1: LedgerCommand,
    asset: Address,
    account: Address,
)
    ensures
        outflow(seq![c0, c1], asset, account) == command_outflow(c0, asset, account)
            + command_outflow(c1, asset, account),
{
    reveal_with_fuel(outflow, 3);
    let cs = seq![c0, c1];
    assert(cs.drop_first() =~= seq![c1]);
    assert(seq![c1].drop_first() =~= Seq::<LedgerCommand>::empty());
}

/// Unfolds `outflow` over a three-command sequence.
pub proof fn lemma_outflow_three(
    c0: LedgerCommand,
    c1: LedgerCommand,
    c2: LedgerCommand,
    asset: Address,
    account: Address,
)
    ensures
        outflow(seq![c0, c1, c2], asset, account) == command_outflow(c0, asset, account)
            + command_outflow(c1, asset, account) + command_outflow(c2, asset, account),
{
    reveal_with_fuel(outflow, 2);
    let cs = seq![c0, c1, c2];
    assert(cs.drop_first() =~= seq![c1, c2]);
    lemma_outflow_two(c1, c2, asset, account);
}

} // verus!
