//! Payout arithmetic: shares are computed with a saturating product and a
//! truncating division, and summed exactly.

use vstd::prelude::*;
use crate::constants::{BASIS_POINTS, ESTIMATE_SOL_BASE, ESTIMATE_SOL_PER_ENTRY, PERCENT};
use crate::keys::Key;
use crate::state::{ProfitEntry, RefundEntry};

verus! {

/// An amount owed to a wallet.
#[derive(Clone, Copy, Debug, PartialEq, Eq)]
pub struct Payout {
    /// Wallet that is paid.
    pub wallet: Key,
    /// Amount that is paid.
    pub amount: u64,
}

/// The product of two amounts, held at the largest amount where it exceeds it.
pub open spec fn saturating_product(a: u64, b: u64) -> int {
    if a * b > u64::MAX {
        u64::MAX as int
    } else {
        a * b
    }
}

/// A record's part of the whole investment, in basis points, rounded down.
pub open spec fn profit_ratio(amount_usdt: u64, total_invest_usdt: u64) -> int
    recommends
        total_invest_usdt > 0,
{
    saturating_product(amount_usdt, BASIS_POINTS) / (total_invest_usdt as int)
}

/// The share of a profit that falls to a ratio in basis points, rounded down.
pub open spec fn profit_share(total_profit_usdt: u64, ratio_bp: u16) -> int {
    saturating_product(total_profit_usdt, ratio_bp as u64) / (BASIS_POINTS as int)
}

/// The part of a contribution that a percentage refunds, rounded down.
pub open spec fn refund_share(amount_hcoin: u64, percent: u8) -> int {
    saturating_product(amount_hcoin, percent as u64) / (PERCENT as int)
}

/// The gas reserved for a distribution of `entries` entries.
pub open spec fn gas_estimate(entries: nat) -> int {
    ESTIMATE_SOL_BASE + entries * ESTIMATE_SOL_PER_ENTRY
}

/// Sum of the amounts of a list of payouts.
pub open spec fn total_amount(payouts: Seq<Payout>) -> int
    decreases payouts.len(),
{
    if payouts.len() == 0 {
        0
    } else {
        total_amount(payouts.drop_last()) + payouts.last().amount
    }
}

/// What a profit entry pays, and to whom.
pub open spec fn profit_payout(entry: ProfitEntry) -> Payout {
    Payout { wallet: entry.wallet, amount: entry.amount_usdt }
}

/// What a refund entry pays, and to whom.
pub open spec fn refund_payout(entry: RefundEntry) -> Payout {
    Payout { wallet: entry.wallet, amount: entry.amount_hcoin }
}

/// The payouts of a profit plan, entry by entry.
pub open spec fn profit_payouts(entries: Seq<ProfitEntry>) -> Seq<Payout> {
    entries.map_values(|entry: ProfitEntry| profit_payout(entry))
}

/// The payouts of a refund plan, entry by entry.
pub open spec fn refund_payouts(entries: Seq<RefundEntry>) -> Seq<Payout> {
    entries.map_values(|entry: RefundEntry| refund_payout(entry))
}

/// One more payout adds its amount to the sum.
pub proof fn lemma_total_amount_push(payouts: Seq<Payout>, payout: Payout)
    ensures
        total_amount(payouts.push(payout)) == total_amount(payouts) + payout.amount,
{
    assert(payouts.push(payout).drop_last() =~= payouts);
}

/// A sum of amounts is never negative.
pub proof fn lemma_total_amount_nonnegative(payouts: Seq<Payout>)
    ensures
        total_amount(payouts) >= 0,
    decreases payouts.len(),
{
    if payouts.len() > 0 {
        lemma_total_amount_nonnegative(payouts.drop_last());
    }
}

/// The product of two amounts, held at the largest amount where it exceeds it.
pub fn saturating_mul(a: u64, b: u64) -> (product: u64)
    ensures
        product == saturating_product(a, b),
{
    match a.checked_mul(b) {
        Some(product) => product,
        None => u64::MAX,
    }
}

/// A record's part of the whole investment, in basis points; `None` where it
/// does not fit in sixteen bits.
pub fn ratio_in_basis_points(amount_usdt: u64, total_invest_usdt: u64) -> (ratio: Option<u16>)
    requires
        total_invest_usdt > 0,
    ensures
        match ratio {
            Some(bp) => bp == profit_ratio(amount_usdt, total_invest_usdt),
            None => profit_ratio(amount_usdt, total_invest_usdt) > u16::MAX,
        },
{
    let quotient = saturating_mul(amount_usdt, BASIS_POINTS) / total_invest_usdt;
    if quotient > 65535 {
        None
    } else {
        Some(quotient as u16)
    }
}

/// The share of a profit that falls to a ratio in basis points.
pub fn share_of_profit(total_profit_usdt: u64, ratio_bp: u16) -> (share: u64)
    ensures
        share == profit_share(total_profit_usdt, ratio_bp),
{
    saturating_mul(total_profit_usdt, ratio_bp as u64) / BASIS_POINTS
}

/// The part of a contribution that a percentage refunds.
pub fn share_of_refund(amount_hcoin: u64, percent: u8) -> (share: u64)
    ensures
        share == refund_share(amount_hcoin, percent),
{
    saturating_mul(amount_hcoin, percent as u64) / PERCENT
}

/// The gas reserved for a distribution of `entries` entries.
pub fn estimate_gas(entries: u16) -> (gas: u64)
    ensures
        gas == gas_estimate(entries as nat),
{
    assert(entries * ESTIMATE_SOL_PER_ENTRY <= 0xffff * 5_000) by (nonlinear_arith)
        requires
            entries <= 0xffff,
            ESTIMATE_SOL_PER_ENTRY == 5_000,
    ;
    ESTIMATE_SOL_BASE + (entries as u64) * ESTIMATE_SOL_PER_ENTRY
}

} // verus!
