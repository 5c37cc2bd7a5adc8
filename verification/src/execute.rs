//! The executor: it pays out a cached plan. The transfers of a plan are
//! made by the caller between two calls: the first states them, the second
//! takes their outcomes. It succeeds, and seals the plan, only when every
//! transfer was made and what was moved is the plan's subtotal; it fails,
//! and leaves the plan as it was, when any transfer was not made.

use vstd::prelude::*;
use crate::address::{
    is_derived, is_profit_cache_address, is_refund_cache_address, is_vault_address,
    profit_cache_seeds, refund_cache_seeds, vault_seeds,
};
use crate::authorization::signer_check;
use crate::constants::{
    get_hcoin_mint, get_usdt_mint, hcoin_mint, usdt_mint, SHARE_CACHE_EXPIRE_SECS,
};
use crate::error::ErrorCode;
use crate::keys::{bytes_equal, Key};
use crate::lifecycle::{check_distribution_gate, distribution_gate};
use crate::payout::{profit_payouts, refund_payouts, total_amount};
use crate::settlement::{
    lemma_settle_bounds, payouts_of_profit, payouts_of_refund, plan_transfers, settle,
    settle_transfers, transfer_made, transfer_plan, ExecutionAccounts,
};
use crate::state::{
    InvestmentInfo, InvestmentInfoView, InvestmentType, ProfitShareCache, ProfitShareCacheView,
    RefundShareCache, RefundShareCacheView,
};
use crate::transfer::{first_settlement, AccountRef, TokenTransfer};

verus! {

/// Whether a plan made at `created_at` is too old at `now`.
pub open spec fn cache_expired(created_at: i64, now: i64) -> bool {
    now - created_at > SHARE_CACHE_EXPIRE_SECS
}

/// Whether a plan made at `created_at` is too old at `now`.
pub fn is_cache_expired(created_at: i64, now: i64) -> (expired: bool)
    ensures
        expired == cache_expired(created_at, now),
{
    let age: i128 = now as i128 - created_at as i128;
    age > SHARE_CACHE_EXPIRE_SECS as i128
}

/// Whether the vault given is the investment's: it stands at the address
/// derived for the investment's vault and is the vault that the
/// configuration names.
pub open spec fn vault_matches(info: InvestmentInfoView, vault_key: Key, program_id: Key) -> bool {
    is_derived(vault_key, vault_seeds(info.investment_id, info.version), program_id) && vault_key
        == info.vault
}

/// Whether the vault given is the investment's.
pub fn is_investment_vault(info: &InvestmentInfo, vault_key: &Key, program_id: &Key) -> (valid:
    bool)
    ensures
        valid == vault_matches(info@, *vault_key, *program_id),
{
    is_vault_address(vault_key, &info.investment_id, &info.version, program_id) && bytes_equal(
        vault_key,
        &info.vault,
    )
}

/// The plan that a cache holds, where the cache is stored.
pub open spec fn stored_profit_plan(cache: Option<ProfitShareCache>) -> Option<
    ProfitShareCacheView,
> {
    match cache {
        Some(plan) => Some(plan@),
        None => None,
    }
}

/// The outcome of the checks made before a profit plan is paid out.
pub open spec fn profit_execution_gate(
    info: InvestmentInfoView,
    cache: Option<ProfitShareCacheView>,
    accounts: ExecutionAccounts,
    signers: Seq<Key>,
    batch_id: u16,
    now: i64,
) -> Result<(), ErrorCode> {
    if !is_derived(
        accounts.cache_key,
        profit_cache_seeds(info.investment_id, info.version, batch_id),
        accounts.program_id,
    ) {
        Err(ErrorCode::InvalidProfitCachePda)
    } else if !vault_matches(info, accounts.vault.key, accounts.program_id) {
        Err(ErrorCode::InvalidVaultPda)
    } else if distribution_gate(info) is Err {
        distribution_gate(info)
    } else if info.investment_type != InvestmentType::Standard {
        Err(ErrorCode::StandardOnly)
    } else {
        match cache {
            None => Err(ErrorCode::ProfitCacheNotFound),
            Some(plan) => if plan.batch_id != batch_id {
                Err(ErrorCode::BatchIdMismatch)
            } else if plan.executed_at != 0 {
                Err(ErrorCode::ProfitAlreadyExecuted)
            } else if cache_expired(plan.created_at, now) {
                Err(ErrorCode::ProfitCacheExpired)
            } else if plan.subtotal_profit_usdt == 0 {
                Err(ErrorCode::InvalidTotalUsdt)
            } else if signer_check(signers, info.execute_whitelist) is Err {
                signer_check(signers, info.execute_whitelist)
            } else if accounts.mint.key != usdt_mint(accounts.network) {
                Err(ErrorCode::InvalidTokenMint)
            } else if accounts.vault_token_account.mint != accounts.mint.key {
                Err(ErrorCode::InvalidTokenMint)
            } else if accounts.vault_token_account.amount < plan.subtotal_profit_usdt {
                Err(ErrorCode::InsufficientTokenBalance)
            } else if accounts.vault.lamports < plan.subtotal_estimate_sol {
                Err(ErrorCode::InsufficientSolBalance)
            } else {
                Ok(())
            },
        }
    }
}

/// Makes the checks that come before a profit plan is paid out.
pub fn check_profit_execution(
    info: &InvestmentInfo,
    cache: &Option<ProfitShareCache>,
    accounts: &ExecutionAccounts,
    signers: &[Key],
    batch_id: u16,
    now: i64,
) -> (outcome: Result<(), ErrorCode>)
    ensures
        outcome == profit_execution_gate(
            info@,
            stored_profit_plan(*cache),
            *accounts,
            signers@,
            batch_id,
            now,
        ),
{
    if !is_profit_cache_address(
        &accounts.cache_key,
        &info.investment_id,
        &info.version,
        batch_id,
        &accounts.program_id,
    ) {
        return Err(ErrorCode::InvalidProfitCachePda);
    }
    if !is_investment_vault(info, &accounts.vault.key, &accounts.program_id) {
        return Err(ErrorCode::InvalidVaultPda);
    }
    match check_distribution_gate(info) {
        Ok(_) => {},
        Err(e) => {
            return Err(e);
        },
    }
    match info.investment_type {
        InvestmentType::Standard => {},
        InvestmentType::Csr => {
            return Err(ErrorCode::StandardOnly);
        },
    }
    let plan = match cache {
        Some(plan) => plan,
        None => {
            return Err(ErrorCode::ProfitCacheNotFound);
        },
    };
    if plan.batch_id != batch_id {
        return Err(ErrorCode::BatchIdMismatch);
    }
    if plan.executed_at != 0 {
        return Err(ErrorCode::ProfitAlreadyExecuted);
    }
    if is_cache_expired(plan.created_at, now) {
        return Err(ErrorCode::ProfitCacheExpired);
    }
    if plan.subtotal_profit_usdt == 0 {
        return Err(ErrorCode::InvalidTotalUsdt);
    }
    match info.verify_signers_3_of_5(signers, false) {
        Ok(_) => {},
        Err(e) => {
            return Err(e);
        },
    }
    if !bytes_equal(&accounts.mint.key, &get_usdt_mint(accounts.network)) {
        return Err(ErrorCode::InvalidTokenMint);
    }
    if !bytes_equal(&accounts.vault_token_account.mint, &accounts.mint.key) {
        return Err(ErrorCode::InvalidTokenMint);
    }
    if accounts.vault_token_account.amount < plan.subtotal_profit_usdt {
        return Err(ErrorCode::InsufficientTokenBalance);
    }
    if accounts.vault.lamports < plan.subtotal_estimate_sol {
        return Err(ErrorCode::InsufficientSolBalance);
    }
    Ok(())
}

/// The transfers of a profit plan, or why it cannot be paid out.
pub open spec fn profit_transfers(
    info: InvestmentInfoView,
    cache: Option<ProfitShareCacheView>,
    accounts: ExecutionAccounts,
    signers: Seq<Key>,
    settlement: Seq<AccountRef>,
    batch_id: u16,
    now: i64,
) -> Result<Seq<Option<TokenTransfer>>, ErrorCode> {
    match profit_execution_gate(info, cache, accounts, signers, batch_id, now) {
        Err(e) => Err(e),
        Ok(_) => transfer_plan(profit_payouts(cache->Some_0.entries), accounts, settlement),
    }
}

/// States the transfers that pay out the profit plan of a batch: one place for each
/// entry, in the plan's order, with the transfer to the recipient's
/// settlement address, or nothing where that account is not fit for a
/// transfer. The plan must be stored and pass every check of an execution,
/// and every recipient's settlement address must be among `settlement`.
pub fn plan_profit_share(
    info: &InvestmentInfo,
    cache: &Option<ProfitShareCache>,
    accounts: &ExecutionAccounts,
    signers: &[Key],
    settlement: &[AccountRef],
    batch_id: u16,
    now: i64,
) -> (outcome: Result<Vec<Option<TokenTransfer>>, ErrorCode>)
    ensures
        match outcome {
            Ok(plan) => profit_transfers(
                info@,
                stored_profit_plan(*cache),
                *accounts,
                signers@,
                settlement@,
                batch_id,
                now,
            ) == Ok::<Seq<Option<TokenTransfer>>, ErrorCode>(plan@),
            Err(e) => profit_transfers(
                info@,
                stored_profit_plan(*cache),
                *accounts,
                signers@,
                settlement@,
                batch_id,
                now,
            ) == Err::<Seq<Option<TokenTransfer>>, ErrorCode>(e),
        },
{
    match check_profit_execution(info, cache, accounts, signers, batch_id, now) {
        Ok(_) => {},
        Err(e) => {
            return Err(e);
        },
    }
    match cache {
        Some(stored) => {
            let payouts = payouts_of_profit(stored.entries.as_slice());
            plan_transfers(payouts.as_slice(), accounts, settlement)
        },
        None => Err(ErrorCode::ProfitCacheNotFound),
    }
}

/// What the execution of a profit plan has moved, or why it fails. It
/// fails where the transfer of any entry was not made, and where what was
/// moved is not the plan's subtotal.
pub open spec fn profit_execution(
    info: InvestmentInfoView,
    cache: Option<ProfitShareCacheView>,
    accounts: ExecutionAccounts,
    signers: Seq<Key>,
    settlement: Seq<AccountRef>,
    outcomes: Seq<bool>,
    batch_id: u16,
    now: i64,
) -> Result<u64, ErrorCode> {
    match profit_execution_gate(info, cache, accounts, signers, batch_id, now) {
        Err(e) => Err(e),
        Ok(_) => match settle(
            profit_payouts(cache->Some_0.entries),
            accounts.mint.key,
            accounts.token_program,
            settlement,
            outcomes,
        ) {
            Err(e) => Err(e),
            Ok((total, made)) => if made != cache->Some_0.entries.len() || total
                != cache->Some_0.subtotal_profit_usdt {
                Err(ErrorCode::TotalShareMismatch)
            } else {
                Ok(total as u64)
            },
        },
    }
}

/// Concludes the execution of the profit plan of a batch, given for each entry whether
/// its transfer went through, and tells what was moved. The
/// investment must be active, completed and of the standard kind;
/// the plan stored, of the batch, pending, at most 25 days old and of a
/// subtotal above zero; the signers a quorum of the execute list; the asset
/// the primary one; and the vault must hold the subtotal and the gas estimate.
/// Every transfer must have been made, and what they moved must be the
/// subtotal exactly. The plan is sealed at `now` on success and left as it
/// was on failure.
pub fn execute_profit_share(
    info: &InvestmentInfo,
    cache: &mut Option<ProfitShareCache>,
    accounts: &ExecutionAccounts,
    signers: &[Key],
    settlement: &[AccountRef],
    outcomes: &[bool],
    batch_id: u16,
    now: i64,
) -> (outcome: Result<u64, ErrorCode>)
    ensures
        outcome == profit_execution(
            info@,
            stored_profit_plan(*old(cache)),
            *accounts,
            signers@,
            settlement@,
            outcomes@,
            batch_id,
            now,
        ),
        stored_profit_plan(*final(cache)) == if outcome is Ok {
            Some(
                ProfitShareCacheView {
                    executed_at: now,
                    ..stored_profit_plan(*old(cache))->Some_0
                },
            )
        } else {
            stored_profit_plan(*old(cache))
        },
{
    match check_profit_execution(info, cache, accounts, signers, batch_id, now) {
        Ok(_) => {},
        Err(e) => {
            return Err(e);
        },
    }
    match cache {
        None => Err(ErrorCode::ProfitCacheNotFound),
        Some(plan) => {
            let payouts = payouts_of_profit(plan.entries.as_slice());
            let (total, made) = match settle_transfers(
                payouts.as_slice(),
                &accounts.mint.key,
                &accounts.token_program,
                settlement,
                outcomes,
            ) {
                Ok(tally) => tally,
                Err(e) => {
                    return Err(e);
                },
            };
            if made != plan.entries.len() || total != plan.subtotal_profit_usdt {
                return Err(ErrorCode::TotalShareMismatch);
            }
            plan.executed_at = now;
            Ok(total)
        },
    }
}

/// A profit plan that an execution has sealed is not executed again: once
/// a call has passed the checks and sealed the plan at a time other than 0,
/// every later call for it is refused as already executed, whoever signs
/// and whatever the vault holds.
pub proof fn lemma_sealed_profit_plan_is_refused(
    info: InvestmentInfoView,
    cache: ProfitShareCacheView,
    accounts: ExecutionAccounts,
    later_accounts: ExecutionAccounts,
    signers: Seq<Key>,
    later_signers: Seq<Key>,
    batch_id: u16,
    now: i64,
    later: i64,
)
    requires
        profit_execution_gate(info, Some(cache), accounts, signers, batch_id, now) is Ok,
        now != 0,
        later_accounts.program_id == accounts.program_id,
        later_accounts.cache_key == accounts.cache_key,
        later_accounts.vault.key == accounts.vault.key,
    ensures
        profit_execution_gate(
            info,
            Some(ProfitShareCacheView { executed_at: now, ..cache }),
            later_accounts,
            later_signers,
            batch_id,
            later,
        ) == Err::<(), ErrorCode>(ErrorCode::ProfitAlreadyExecuted),
{
}

/// A profit plan that was executed, or that is older than 25 days, is
/// not paid out, whatever the vault holds; nor is a plan that is not stored.
pub proof fn lemma_stale_profit_plan_is_refused(
    info: InvestmentInfoView,
    cache: Option<ProfitShareCacheView>,
    accounts: ExecutionAccounts,
    signers: Seq<Key>,
    settlement: Seq<AccountRef>,
    outcomes: Seq<bool>,
    batch_id: u16,
    now: i64,
)
    requires
        cache is None || cache->Some_0.executed_at != 0 || cache_expired(
            cache->Some_0.created_at,
            now,
        ),
    ensures
        profit_transfers(
            info,
            cache,
            accounts,
            signers,
            settlement,
            batch_id,
            now,
        ) is Err,
        profit_execution(
            info,
            cache,
            accounts,
            signers,
            settlement,
            outcomes,
            batch_id,
            now,
        ) is Err,
{
}

/// In a successful execution of a profit plan the transfer of every entry
/// was made, and what was moved is the plan's subtotal and the sum of the
/// plan's entries.
pub proof fn lemma_profit_execution_conserves(
    info: InvestmentInfoView,
    cache: ProfitShareCacheView,
    accounts: ExecutionAccounts,
    signers: Seq<Key>,
    settlement: Seq<AccountRef>,
    outcomes: Seq<bool>,
    batch_id: u16,
    now: i64,
)
    requires
        profit_execution(
            info,
            Some(cache),
            accounts,
            signers,
            settlement,
            outcomes,
            batch_id,
            now,
        ) is Ok,
    ensures
        ({
            let moved = profit_execution(
                info,
                Some(cache),
                accounts,
                signers,
                settlement,
                outcomes,
                batch_id,
                now,
            )->Ok_0;
            &&& moved == cache.subtotal_profit_usdt
            &&& moved == total_amount(profit_payouts(cache.entries))
            &&& forall|place: int|
                0 <= place < cache.entries.len() ==> {
                    let to = first_settlement(
                        settlement,
                        (#[trigger] cache.entries[place]).wallet,
                        accounts.mint.key,
                    );
                    to is Some && transfer_made(
                        to->Some_0,
                        accounts.token_program,
                        outcomes,
                        place,
                    )
                }
        }),
{
    let payouts = profit_payouts(cache.entries);
    lemma_settle_bounds(
        payouts,
        accounts.mint.key,
        accounts.token_program,
        settlement,
        outcomes,
    );
    assert forall|place: int| 0 <= place < cache.entries.len() implies {
        let to = first_settlement(
            settlement,
            (#[trigger] cache.entries[place]).wallet,
            accounts.mint.key,
        );
        to is Some && transfer_made(to->Some_0, accounts.token_program, outcomes, place)
    } by {
        assert(payouts[place].wallet == cache.entries[place].wallet);
    }
}

/// Where the transfer of one entry of a profit plan was not made, whatever
/// that entry's amount, the execution fails; the plan then stays as it was.
pub proof fn lemma_failed_profit_transfer(
    info: InvestmentInfoView,
    cache: ProfitShareCacheView,
    accounts: ExecutionAccounts,
    signers: Seq<Key>,
    settlement: Seq<AccountRef>,
    outcomes: Seq<bool>,
    batch_id: u16,
    now: i64,
    place: int,
)
    requires
        0 <= place < cache.entries.len(),
        ({
            let to = first_settlement(settlement, cache.entries[place].wallet, accounts.mint.key);
            to is None || !transfer_made(to->Some_0, accounts.token_program, outcomes, place)
        }),
    ensures
        profit_execution(
            info,
            Some(cache),
            accounts,
            signers,
            settlement,
            outcomes,
            batch_id,
            now,
        ) is Err,
{
    let payouts = profit_payouts(cache.entries);
    if settle(payouts, accounts.mint.key, accounts.token_program, settlement, outcomes) is Ok {
        lemma_settle_bounds(
            payouts,
            accounts.mint.key,
            accounts.token_program,
            settlement,
            outcomes,
        );
        assert(payouts[place].wallet == cache.entries[place].wallet);
    }
}

/// The plan that a cache holds, where the cache is stored.
pub open spec fn stored_refund_plan(cache: Option<RefundShareCache>) -> Option<
    RefundShareCacheView,
> {
    match cache {
        Some(plan) => Some(plan@),
        None => None,
    }
}

/// The outcome of the checks made before a refund plan is paid out.
pub open spec fn refund_execution_gate(
    info: InvestmentInfoView,
    cache: Option<RefundShareCacheView>,
    accounts: ExecutionAccounts,
    signers: Seq<Key>,
    batch_id: u16,
    year_index: u8,
    now: i64,
) -> Result<(), ErrorCode> {
    if cache is Some && cache->Some_0.year_index != year_index {
        Err(ErrorCode::InvalidRefundCachePda)
    } else if !is_derived(
        accounts.cache_key,
        refund_cache_seeds(info.investment_id, info.version, batch_id, year_index),
        accounts.program_id,
    ) {
        Err(ErrorCode::InvalidRefundCachePda)
    } else if !vault_matches(info, accounts.vault.key, accounts.program_id) {
        Err(ErrorCode::InvalidVaultPda)
    } else if distribution_gate(info) is Err {
        distribution_gate(info)
    } else {
        match cache {
            None => Err(ErrorCode::ProfitCacheNotFound),
            Some(plan) => if plan.batch_id != batch_id {
                Err(ErrorCode::BatchIdMismatch)
            } else if plan.executed_at != 0 {
                Err(ErrorCode::ProfitAlreadyExecuted)
            } else if cache_expired(plan.created_at, now) {
                Err(ErrorCode::ProfitCacheExpired)
            } else if plan.subtotal_refund_hcoin == 0 {
                Err(ErrorCode::InvalidTotalUsdt)
            } else if signer_check(signers, info.execute_whitelist) is Err {
                signer_check(signers, info.execute_whitelist)
            } else if accounts.mint.key != hcoin_mint(accounts.network) {
                Err(ErrorCode::InvalidTokenMint)
            } else if accounts.vault_token_account.mint != accounts.mint.key {
                Err(ErrorCode::InvalidTokenMint)
            } else if accounts.vault.lamports < plan.subtotal_estimate_sol {
                Err(ErrorCode::InsufficientSolBalance)
            } else if accounts.vault_token_account.amount < plan.subtotal_refund_hcoin {
                Err(ErrorCode::InsufficientTokenBalance)
            } else {
                Ok(())
            },
        }
    }
}

/// Makes the checks that come before a refund plan is paid out.
pub fn check_refund_execution(
    info: &InvestmentInfo,
    cache: &Option<RefundShareCache>,
    accounts: &ExecutionAccounts,
    signers: &[Key],
    batch_id: u16,
    year_index: u8,
    now: i64,
) -> (outcome: Result<(), ErrorCode>)
    ensures
        outcome == refund_execution_gate(
            info@,
            stored_refund_plan(*cache),
            *accounts,
            signers@,
            batch_id,
            year_index,
            now,
        ),
{
    match cache {
        Some(plan) => {
            if plan.year_index != year_index {
                return Err(ErrorCode::InvalidRefundCachePda);
            }
        },
        None => {},
    }
    if !is_refund_cache_address(
        &accounts.cache_key,
        &info.investment_id,
        &info.version,
        batch_id,
        year_index,
        &accounts.program_id,
    ) {
        return Err(ErrorCode::InvalidRefundCachePda);
    }
    if !is_investment_vault(info, &accounts.vault.key, &accounts.program_id) {
        return Err(ErrorCode::InvalidVaultPda);
    }
    match check_distribution_gate(info) {
        Ok(_) => {},
        Err(e) => {
            return Err(e);
        },
    }
    let plan = match cache {
        Some(plan) => plan,
        None => {
            return Err(ErrorCode::ProfitCacheNotFound);
        },
    };
    if plan.batch_id != batch_id {
        return Err(ErrorCode::BatchIdMismatch);
    }
    if plan.executed_at != 0 {
        return Err(ErrorCode::ProfitAlreadyExecuted);
    }
    if is_cache_expired(plan.created_at, now) {
        return Err(ErrorCode::ProfitCacheExpired);
    }
    if plan.subtotal_refund_hcoin == 0 {
        return Err(ErrorCode::InvalidTotalUsdt);
    }
    match info.verify_signers_3_of_5(signers, false) {
        Ok(_) => {},
        Err(e) => {
            return Err(e);
        },
    }
    if !bytes_equal(&accounts.mint.key, &get_hcoin_mint(accounts.network)) {
        return Err(ErrorCode::InvalidTokenMint);
    }
    if !bytes_equal(&accounts.vault_token_account.mint, &accounts.mint.key) {
        return Err(ErrorCode::InvalidTokenMint);
    }
    if accounts.vault.lamports < plan.subtotal_estimate_sol {
        return Err(ErrorCode::InsufficientSolBalance);
    }
    if accounts.vault_token_account.amount < plan.subtotal_refund_hcoin {
        return Err(ErrorCode::InsufficientTokenBalance);
    }
    Ok(())
}

/// The transfers of a refund plan, or why it cannot be paid out.
pub open spec fn refund_transfers(
    info: InvestmentInfoView,
    cache: Option<RefundShareCacheView>,
    accounts: ExecutionAccounts,
    signers: Seq<Key>,
    settlement: Seq<AccountRef>,
    batch_id: u16,
    year_index: u8,
    now: i64,
) -> Result<Seq<Option<TokenTransfer>>, ErrorCode> {
    match refund_execution_gate(info, cache, accounts, signers, batch_id, year_index, now) {
        Err(e) => Err(e),
        Ok(_) => transfer_plan(refund_payouts(cache->Some_0.entries), accounts, settlement),
    }
}

/// States the transfers that pay out the refund plan of a batch and year: one place for each
/// entry, in the plan's order, with the transfer to the recipient's
/// settlement address, or nothing where that account is not fit for a
/// transfer. The plan must be stored and pass every check of an execution,
/// and every recipient's settlement address must be among `settlement`.
pub fn plan_refund_share(
    info: &InvestmentInfo,
    cache: &Option<RefundShareCache>,
    accounts: &ExecutionAccounts,
    signers: &[Key],
    settlement: &[AccountRef],
    batch_id: u16,
    year_index: u8,
    now: i64,
) -> (outcome: Result<Vec<Option<TokenTransfer>>, ErrorCode>)
    ensures
        match outcome {
            Ok(plan) => refund_transfers(
                info@,
                stored_refund_plan(*cache),
                *accounts,
                signers@,
                settlement@,
                batch_id,
                year_index,
                now,
            ) == Ok::<Seq<Option<TokenTransfer>>, ErrorCode>(plan@),
            Err(e) => refund_transfers(
                info@,
                stored_refund_plan(*cache),
                *accounts,
                signers@,
                settlement@,
                batch_id,
                year_index,
                now,
            ) == Err::<Seq<Option<TokenTransfer>>, ErrorCode>(e),
        },
{
    match check_refund_execution(info, cache, accounts, signers, batch_id, year_index, now) {
        Ok(_) => {},
        Err(e) => {
            return Err(e);
        },
    }
    match cache {
        Some(stored) => {
            let payouts = payouts_of_refund(stored.entries.as_slice());
            plan_transfers(payouts.as_slice(), accounts, settlement)
        },
        None => Err(ErrorCode::ProfitCacheNotFound),
    }
}

/// What the execution of a refund plan has moved, or why it fails. It
/// fails where the transfer of any entry was not made, and where what was
/// moved is not the plan's subtotal.
pub open spec fn refund_execution(
    info: InvestmentInfoView,
    cache: Option<RefundShareCacheView>,
    accounts: ExecutionAccounts,
    signers: Seq<Key>,
    settlement: Seq<AccountRef>,
    outcomes: Seq<bool>,
    batch_id: u16,
    year_index: u8,
    now: i64,
) -> Result<u64, ErrorCode> {
    match refund_execution_gate(info, cache, accounts, signers, batch_id, year_index, now) {
        Err(e) => Err(e),
        Ok(_) => match settle(
            refund_payouts(cache->Some_0.entries),
            accounts.mint.key,
            accounts.token_program,
            settlement,
            outcomes,
        ) {
            Err(e) => Err(e),
            Ok((total, made)) => if made != cache->Some_0.entries.len() || total
                != cache->Some_0.subtotal_refund_hcoin {
                Err(ErrorCode::TotalShareMismatch)
            } else {
                Ok(total as u64)
            },
        },
    }
}

/// Concludes the execution of the refund plan of a batch and year, given for each entry whether
/// its transfer went through, and tells what was moved. The
/// investment must be active and completed;
/// the plan stored, of the batch, pending, at most 25 days old and of a
/// subtotal above zero; the signers a quorum of the execute list; the asset
/// the secondary one; and the vault must hold the gas estimate and the subtotal.
/// Every transfer must have been made, and what they moved must be the
/// subtotal exactly. The plan is sealed at `now` on success and left as it
/// was on failure.
pub fn execute_refund_share(
    info: &InvestmentInfo,
    cache: &mut Option<RefundShareCache>,
    accounts: &ExecutionAccounts,
    signers: &[Key],
    settlement: &[AccountRef],
    outcomes: &[bool],
    batch_id: u16,
    year_index: u8,
    now: i64,
) -> (outcome: Result<u64, ErrorCode>)
    ensures
        outcome == refund_execution(
            info@,
            stored_refund_plan(*old(cache)),
            *accounts,
            signers@,
            settlement@,
            outcomes@,
            batch_id,
            year_index,
            now,
        ),
        stored_refund_plan(*final(cache)) == if outcome is Ok {
            Some(
                RefundShareCacheView {
                    executed_at: now,
                    ..stored_refund_plan(*old(cache))->Some_0
                },
            )
        } else {
            stored_refund_plan(*old(cache))
        },
{
    match check_refund_execution(info, cache, accounts, signers, batch_id, year_index, now) {
        Ok(_) => {},
        Err(e) => {
            return Err(e);
        },
    }
    match cache {
        None => Err(ErrorCode::ProfitCacheNotFound),
        Some(plan) => {
            let payouts = payouts_of_refund(plan.entries.as_slice());
            let (total, made) = match settle_transfers(
                payouts.as_slice(),
                &accounts.mint.key,
                &accounts.token_program,
                settlement,
                outcomes,
            ) {
                Ok(tally) => tally,
                Err(e) => {
                    return Err(e);
                },
            };
            if made != plan.entries.len() || total != plan.subtotal_refund_hcoin {
                return Err(ErrorCode::TotalShareMismatch);
            }
            plan.executed_at = now;
            Ok(total)
        },
    }
}

/// A refund plan that an execution has sealed is not executed again: once
/// a call has passed the checks and sealed the plan at a time other than 0,
/// every later call for it is refused as already executed, whoever signs
/// and whatever the vault holds.
pub proof fn lemma_sealed_refund_plan_is_refused(
    info: InvestmentInfoView,
    cache: RefundShareCacheView,
    accounts: ExecutionAccounts,
    later_accounts: ExecutionAccounts,
    signers: Seq<Key>,
    later_signers: Seq<Key>,
    batch_id: u16,
    year_index: u8,
    now: i64,
    later: i64,
)
    requires
        refund_execution_gate(
            info,
            Some(cache),
            accounts,
            signers,
            batch_id,
            year_index,
            now,
        ) is Ok,
        now != 0,
        later_accounts.program_id == accounts.program_id,
        later_accounts.cache_key == accounts.cache_key,
        later_accounts.vault.key == accounts.vault.key,
    ensures
        refund_execution_gate(
            info,
            Some(RefundShareCacheView { executed_at: now, ..cache }),
            later_accounts,
            later_signers,
            batch_id,
            year_index,
            later,
        ) == Err::<(), ErrorCode>(ErrorCode::ProfitAlreadyExecuted),
{
}

/// A refund plan that was executed, or that is older than 25 days, is
/// not paid out, whatever the vault holds; nor is a plan that is not stored.
pub proof fn lemma_stale_refund_plan_is_refused(
    info: InvestmentInfoView,
    cache: Option<RefundShareCacheView>,
    accounts: ExecutionAccounts,
    signers: Seq<Key>,
    settlement: Seq<AccountRef>,
    outcomes: Seq<bool>,
    batch_id: u16,
    year_index: u8,
    now: i64,
)
    requires
        cache is None || cache->Some_0.executed_at != 0 || cache_expired(
            cache->Some_0.created_at,
            now,
        ),
    ensures
        refund_transfers(
            info,
            cache,
            accounts,
            signers,
            settlement,
            batch_id,
            year_index,
            now,
        ) is Err,
        refund_execution(
            info,
            cache,
            accounts,
            signers,
            settlement,
            outcomes,
            batch_id,
            year_index,
            now,
        ) is Err,
{
}

/// In a successful execution of a refund plan the transfer of every entry
/// was made, and what was moved is the plan's subtotal and the sum of the
/// plan's entries.
pub proof fn lemma_refund_execution_conserves(
    info: InvestmentInfoView,
    cache: RefundShareCacheView,
    accounts: ExecutionAccounts,
    signers: Seq<Key>,
    settlement: Seq<AccountRef>,
    outcomes: Seq<bool>,
    batch_id: u16,
    year_index: u8,
    now: i64,
)
    requires
        refund_execution(
            info,
            Some(cache),
            accounts,
            signers,
            settlement,
            outcomes,
            batch_id,
            year_index,
            now,
        ) is Ok,
    ensures
        ({
            let moved = refund_execution(
                info,
                Some(cache),
                accounts,
                signers,
                settlement,
                outcomes,
                batch_id,
                year_index,
                now,
            )->Ok_0;
            &&& moved == cache.subtotal_refund_hcoin
            &&& moved == total_amount(refund_payouts(cache.entries))
            &&& forall|place: int|
                0 <= place < cache.entries.len() ==> {
                    let to = first_settlement(
                        settlement,
                        (#[trigger] cache.entries[place]).wallet,
                        accounts.mint.key,
                    );
                    to is Some && transfer_made(
                        to->Some_0,
                        accounts.token_program,
                        outcomes,
                        place,
                    )
                }
        }),
{
    let payouts = refund_payouts(cache.entries);
    lemma_settle_bounds(
        payouts,
        accounts.mint.key,
        accounts.token_program,
        settlement,
        outcomes,
    );
    assert forall|place: int| 0 <= place < cache.entries.len() implies {
        let to = first_settlement(
            settlement,
            (#[trigger] cache.entries[place]).wallet,
            accounts.mint.key,
        );
        to is Some && transfer_made(to->Some_0, accounts.token_program, outcomes, place)
    } by {
        assert(payouts[place].wallet == cache.entries[place].wallet);
    }
}

/// Where the transfer of one entry of a refund plan was not made, whatever
/// that entry's amount, the execution fails; the plan then stays as it was.
pub proof fn lemma_failed_refund_transfer(
    info: InvestmentInfoView,
    cache: RefundShareCacheView,
    accounts: ExecutionAccounts,
    signers: Seq<Key>,
    settlement: Seq<AccountRef>,
    outcomes: Seq<bool>,
    batch_id: u16,
    year_index: u8,
    now: i64,
    place: int,
)
    requires
        0 <= place < cache.entries.len(),
        ({
            let to = first_settlement(settlement, cache.entries[place].wallet, accounts.mint.key);
            to is None || !transfer_made(to->Some_0, accounts.token_program, outcomes, place)
        }),
    ensures
        refund_execution(
            info,
            Some(cache),
            accounts,
            signers,
            settlement,
            outcomes,
            batch_id,
            year_index,
            now,
        ) is Err,
{
    let payouts = refund_payouts(cache.entries);
    if settle(payouts, accounts.mint.key, accounts.token_program, settlement, outcomes) is Ok {
        lemma_settle_bounds(
            payouts,
            accounts.mint.key,
            accounts.token_program,
            settlement,
            outcomes,
        );
        assert(payouts[place].wallet == cache.entries[place].wallet);
    }
}

} // verus!
