//! Settlement: the transfers that pay a list of payouts, and what the
//! transfers that were made have moved.

use vstd::prelude::*;
use crate::constants::{Network, TOKEN_PROGRAM_ID};
use crate::error::ErrorCode;
use crate::keys::{bytes_equal, Key};
use crate::payout::{
    lemma_total_amount_nonnegative, profit_payout, profit_payouts, refund_payout, refund_payouts,
    total_amount, Payout,
};
use crate::state::{ProfitEntry, RefundEntry, TokenAccount};
use crate::transfer::{
    find_settlement_account, first_settlement, transfer_check, transfer_token_checked, AccountRef,
    MintAccount, TokenTransfer, VaultAccount,
};

verus! {

/// The accounts of an execution, as they stood before any of its transfers.
#[derive(Clone, Copy, Debug, PartialEq, Eq)]
pub struct ExecutionAccounts {
    /// Program that runs the call.
    pub program_id: Key,
    /// Address of the cache that holds the plan.
    pub cache_key: Key,
    /// The vault that pays.
    pub vault: VaultAccount,
    /// The asset that is paid.
    pub mint: MintAccount,
    /// The vault's token account of that asset.
    pub vault_token_account: TokenAccount,
    /// Program that is to move the asset.
    pub token_program: Key,
    /// Deployment environment.
    pub network: Network,
}

/// The payouts of a profit plan.
pub fn payouts_of_profit(entries: &[ProfitEntry]) -> (payouts: Vec<Payout>)
    ensures
        payouts@ == profit_payouts(entries@),
{
    let mut payouts: Vec<Payout> = Vec::new();
    let mut i: usize = 0;
    while i < entries.len()
        invariant
            i <= entries@.len(),
            payouts@.len() == i,
            forall|j: int| 0 <= j < i ==> payouts@[j] == profit_payout(#[trigger] entries@[j]),
        decreases entries@.len() - i,
    {
        payouts.push(Payout { wallet: entries[i].wallet, amount: entries[i].amount_usdt });
        i += 1;
    }
    assert(payouts@ =~= profit_payouts(entries@));
    payouts
}

/// The payouts of a refund plan.
pub fn payouts_of_refund(entries: &[RefundEntry]) -> (payouts: Vec<Payout>)
    ensures
        payouts@ == refund_payouts(entries@),
{
    let mut payouts: Vec<Payout> = Vec::new();
    let mut i: usize = 0;
    while i < entries.len()
        invariant
            i <= entries@.len(),
            payouts@.len() == i,
            forall|j: int| 0 <= j < i ==> payouts@[j] == refund_payout(#[trigger] entries@[j]),
        decreases entries@.len() - i,
    {
        payouts.push(Payout { wallet: entries[i].wallet, amount: entries[i].amount_hcoin });
        i += 1;
    }
    assert(payouts@ =~= refund_payouts(entries@));
    payouts
}

/// The transfer that pays `payout` to the account `to`, where the account
/// is fit for it.
pub open spec fn planned_transfer(
    payout: Payout,
    to: AccountRef,
    accounts: ExecutionAccounts,
) -> Option<TokenTransfer> {
    if transfer_check(accounts.token_program, to) is Ok {
        Some(
            TokenTransfer {
                from: accounts.vault_token_account.key,
                to: to.key,
                mint: accounts.mint.key,
                authority: accounts.vault.key,
                amount: payout.amount,
                decimals: accounts.mint.decimals,
                with_signer_seeds: true,
            },
        )
    } else {
        None
    }
}

/// The transfers that pay the payouts, one place for each payout: the
/// transfer to the recipient's settlement address among `settlement`, or
/// nothing where that account is not fit for a transfer. Every recipient's
/// settlement address must be among the accounts.
pub open spec fn transfer_plan(
    payouts: Seq<Payout>,
    accounts: ExecutionAccounts,
    settlement: Seq<AccountRef>,
) -> Result<Seq<Option<TokenTransfer>>, ErrorCode>
    decreases payouts.len(),
{
    if payouts.len() == 0 {
        Ok(Seq::empty())
    } else {
        match transfer_plan(payouts.drop_last(), accounts, settlement) {
            Err(e) => Err(e),
            Ok(plan) => match first_settlement(
                settlement,
                payouts.last().wallet,
                accounts.mint.key,
            ) {
                None => Err(ErrorCode::MissingAssociatedTokenAccount),
                Some(to) => Ok(plan.push(planned_transfer(payouts.last(), to, accounts))),
            },
        }
    }
}

/// Once a recipient's settlement address is missing, the payouts that
/// follow change nothing.
proof fn lemma_plan_error_stays(
    payouts: Seq<Payout>,
    upto: int,
    accounts: ExecutionAccounts,
    settlement: Seq<AccountRef>,
)
    requires
        0 <= upto <= payouts.len(),
        transfer_plan(payouts.take(upto), accounts, settlement) is Err,
    ensures
        transfer_plan(payouts, accounts, settlement) == transfer_plan(
            payouts.take(upto),
            accounts,
            settlement,
        ),
    decreases payouts.len() - upto,
{
    if upto < payouts.len() {
        assert(payouts.take(upto + 1).drop_last() =~= payouts.take(upto));
        lemma_plan_error_stays(payouts, upto + 1, accounts, settlement);
    } else {
        assert(payouts.take(upto) =~= payouts);
    }
}

/// States the transfers that pay the payouts.
pub fn plan_transfers(
    payouts: &[Payout],
    accounts: &ExecutionAccounts,
    settlement: &[AccountRef],
) -> (outcome: Result<Vec<Option<TokenTransfer>>, ErrorCode>)
    ensures
        match outcome {
            Ok(plan) => transfer_plan(payouts@, *accounts, settlement@) == Ok::<
                Seq<Option<TokenTransfer>>,
                ErrorCode,
            >(plan@) && plan@.len() == payouts@.len(),
            Err(e) => transfer_plan(payouts@, *accounts, settlement@) == Err::<
                Seq<Option<TokenTransfer>>,
                ErrorCode,
            >(e),
        },
{
    let mut plan: Vec<Option<TokenTransfer>> = Vec::new();
    let mut i: usize = 0;
    while i < payouts.len()
        invariant
            i <= payouts@.len(),
            plan@.len() == i,
            transfer_plan(payouts@.take(i as int), *accounts, settlement@) == Ok::<
                Seq<Option<TokenTransfer>>,
                ErrorCode,
            >(plan@),
        decreases payouts@.len() - i,
    {
        proof {
            assert(payouts@.take(i + 1).drop_last() =~= payouts@.take(i as int));
            assert(payouts@.take(i + 1).last() == payouts@[i as int]);
        }
        let to = match find_settlement_account(settlement, &payouts[i].wallet, &accounts.mint.key) {
            Some(to) => to,
            None => {
                proof {
                    lemma_plan_error_stays(payouts@, i + 1, *accounts, settlement@);
                }
                return Err(ErrorCode::MissingAssociatedTokenAccount);
            },
        };
        let transfer = match transfer_token_checked(
            &accounts.token_program,
            &accounts.vault_token_account.key,
            &to,
            &accounts.mint.key,
            &accounts.vault.key,
            true,
            payouts[i].amount,
            accounts.mint.decimals,
        ) {
            Ok(transfer) => Some(transfer),
            Err(_) => None,
        };
        plan.push(transfer);
        i += 1;
    }
    proof {
        assert(payouts@.take(payouts@.len() as int) =~= payouts@);
    }
    Ok(plan)
}

/// Whether the transfer of the payout at `place` was made: its account was
/// fit for it and the caller reports that it went through.
pub open spec fn transfer_made(
    to: AccountRef,
    token_program: Key,
    outcomes: Seq<bool>,
    place: int,
) -> bool {
    transfer_check(token_program, to) is Ok && 0 <= place < outcomes.len() && outcomes[place]
}

/// What was moved by the transfers of the payouts, and how many of them
/// were made. A transfer that was not made moves nothing.
pub open spec fn settle(
    payouts: Seq<Payout>,
    mint: Key,
    token_program: Key,
    settlement: Seq<AccountRef>,
    outcomes: Seq<bool>,
) -> Result<(int, nat), ErrorCode>
    decreases payouts.len(),
{
    if payouts.len() == 0 {
        Ok((0, 0))
    } else {
        match settle(payouts.drop_last(), mint, token_program, settlement, outcomes) {
            Err(e) => Err(e),
            Ok((total, made)) => match first_settlement(settlement, payouts.last().wallet, mint) {
                None => Err(ErrorCode::MissingAssociatedTokenAccount),
                Some(to) => if !transfer_made(to, token_program, outcomes, payouts.len() - 1) {
                    Ok((total, made))
                } else if total + payouts.last().amount > u64::MAX {
                    Err(ErrorCode::NumericalOverflow)
                } else {
                    Ok((total + payouts.last().amount, made + 1))
                },
            },
        }
    }
}

/// Once the settlement fails at a payout, the payouts that follow change
/// nothing.
proof fn lemma_settle_error_stays(
    payouts: Seq<Payout>,
    upto: int,
    mint: Key,
    token_program: Key,
    settlement: Seq<AccountRef>,
    outcomes: Seq<bool>,
)
    requires
        0 <= upto <= payouts.len(),
        settle(payouts.take(upto), mint, token_program, settlement, outcomes) is Err,
    ensures
        settle(payouts, mint, token_program, settlement, outcomes) == settle(
            payouts.take(upto),
            mint,
            token_program,
            settlement,
            outcomes,
        ),
    decreases payouts.len() - upto,
{
    if upto < payouts.len() {
        assert(payouts.take(upto + 1).drop_last() =~= payouts.take(upto));
        lemma_settle_error_stays(payouts, upto + 1, mint, token_program, settlement, outcomes);
    } else {
        assert(payouts.take(upto) =~= payouts);
    }
}

/// What the transfers that were made have moved is at most what the payouts
/// come to: all of it where every transfer was made, and less by the amount
/// of any transfer that was not.
pub proof fn lemma_settle_bounds(
    payouts: Seq<Payout>,
    mint: Key,
    token_program: Key,
    settlement: Seq<AccountRef>,
    outcomes: Seq<bool>,
)
    requires
        settle(payouts, mint, token_program, settlement, outcomes) is Ok,
    ensures
        ({
            let (total, made) = settle(payouts, mint, token_program, settlement, outcomes)->Ok_0;
            &&& 0 <= total <= total_amount(payouts)
            &&& total <= u64::MAX
            &&& made <= payouts.len()
            &&& made == payouts.len() ==> total == total_amount(payouts)
            &&& forall|i: int|
                0 <= i < payouts.len() ==> {
                    let to = first_settlement(settlement, (#[trigger] payouts[i]).wallet, mint);
                    &&& to is Some
                    &&& !transfer_made(to->Some_0, token_program, outcomes, i) ==> made
                        < payouts.len() && total + payouts[i].amount <= total_amount(payouts)
                }
        }),
    decreases payouts.len(),
{
    if payouts.len() > 0 {
        let rest = payouts.drop_last();
        lemma_settle_bounds(rest, mint, token_program, settlement, outcomes);
        lemma_total_amount_nonnegative(rest);
        let (total, made) = settle(payouts, mint, token_program, settlement, outcomes)->Ok_0;
        assert forall|i: int| 0 <= i < payouts.len() implies {
            let to = first_settlement(settlement, (#[trigger] payouts[i]).wallet, mint);
            &&& to is Some
            &&& !transfer_made(to->Some_0, token_program, outcomes, i) ==> made < payouts.len()
                && total + payouts[i].amount <= total_amount(payouts)
        } by {
            if i < payouts.len() - 1 {
                assert(rest[i] == payouts[i]);
            }
        }
    }
}

/// Adds up what the transfers of the payouts have moved and counts the
/// transfers that were made.
pub fn settle_transfers(
    payouts: &[Payout],
    mint: &Key,
    token_program: &Key,
    settlement: &[AccountRef],
    outcomes: &[bool],
) -> (outcome: Result<(u64, usize), ErrorCode>)
    ensures
        match outcome {
            Ok((total, made)) => settle(payouts@, *mint, *token_program, settlement@, outcomes@)
                == Ok::<(int, nat), ErrorCode>((total as int, made as nat)),
            Err(e) => settle(payouts@, *mint, *token_program, settlement@, outcomes@) == Err::<
                (int, nat),
                ErrorCode,
            >(e),
        },
{
    let mut total: u64 = 0;
    let mut made: usize = 0;
    let mut i: usize = 0;
    while i < payouts.len()
        invariant
            i <= payouts@.len(),
            made <= i,
            settle(payouts@.take(i as int), *mint, *token_program, settlement@, outcomes@) == Ok::<
                (int, nat),
                ErrorCode,
            >((total as int, made as nat)),
        decreases payouts@.len() - i,
    {
        proof {
            assert(payouts@.take(i + 1).drop_last() =~= payouts@.take(i as int));
            assert(payouts@.take(i + 1).last() == payouts@[i as int]);
        }
        let to = match find_settlement_account(settlement, &payouts[i].wallet, mint) {
            Some(to) => to,
            None => {
                proof {
                    lemma_settle_error_stays(
                        payouts@,
                        i + 1,
                        *mint,
                        *token_program,
                        settlement@,
                        outcomes@,
                    );
                }
                return Err(ErrorCode::MissingAssociatedTokenAccount);
            },
        };
        let fit = bytes_equal(token_program, &TOKEN_PROGRAM_ID) && bytes_equal(
            &to.owner,
            &TOKEN_PROGRAM_ID,
        );
        if fit && i < outcomes.len() && outcomes[i] {
            total = match total.checked_add(payouts[i].amount) {
                Some(sum) => sum,
                None => {
                    proof {
                        lemma_settle_error_stays(
                            payouts@,
                            i + 1,
                            *mint,
                            *token_program,
                            settlement@,
                            outcomes@,
                        );
                    }
                    return Err(ErrorCode::NumericalOverflow);
                },
            };
            made += 1;
        }
        i += 1;
    }
    proof {
        assert(payouts@.take(payouts@.len() as int) =~= payouts@);
    }
    Ok((total, made))
}

} // verus!
