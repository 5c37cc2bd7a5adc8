//! The estimator: from the records of a batch it plans a profit or a refund
//! distribution and stores the plan in a cache.

use vstd::prelude::*;
use crate::address::{
    is_derived, is_profit_cache_address, is_refund_cache_address, profit_cache_seeds,
    refund_cache_seeds,
};
use crate::authorization::{any_listed, any_signer_listed};
use crate::batch::{collect_batch_records, collect_records, CandidateRecord};
use crate::constants::{
    MAX_ENTRIES_PER_BATCH, MAX_YEAR_INDEX, SECONDS_PER_YEAR, START_YEAR_INDEX,
};
use crate::error::ErrorCode;
use crate::keys::Key;
use crate::lifecycle::{check_distribution_gate, distribution_gate};
use crate::payout::{
    estimate_gas, gas_estimate, lemma_total_amount_push, profit_payout, profit_payouts,
    profit_ratio, profit_share, ratio_in_basis_points, refund_payout, refund_payouts,
    refund_share, share_of_profit, share_of_refund, total_amount, Payout,
};
use crate::state::{
    InvestmentInfo, InvestmentInfoView, InvestmentRecord, InvestmentType, ProfitEntry,
    ProfitShareCache, ProfitShareCacheView, RefundEntry, RefundShareCache, RefundShareCacheView,
    StageRatio,
};

verus! {

/// Whether a record is in force: it was not revoked.
pub open spec fn in_force(record: InvestmentRecord) -> bool {
    record.revoked_at == 0
}

/// The entry that a record in force gets of a profit.
pub open spec fn profit_entry(
    record: InvestmentRecord,
    total_profit_usdt: u64,
    total_invest_usdt: u64,
) -> ProfitEntry {
    let ratio_bp = profit_ratio(record.amount_usdt, total_invest_usdt) as u16;
    ProfitEntry {
        account_id: record.account_id,
        wallet: record.wallet,
        amount_usdt: profit_share(total_profit_usdt, ratio_bp) as u64,
        ratio_bp,
    }
}

/// The entries of a profit plan for the records given, in their order.
/// Revoked records get none. The plan fails at the first record whose ratio
/// does not fit in sixteen bits, or with whose share the sum leaves the
/// range of amounts.
pub open spec fn profit_entries(
    records: Seq<InvestmentRecord>,
    total_profit_usdt: u64,
    total_invest_usdt: u64,
) -> Result<Seq<ProfitEntry>, ErrorCode>
    decreases records.len(),
{
    if records.len() == 0 {
        Ok(Seq::empty())
    } else {
        match profit_entries(records.drop_last(), total_profit_usdt, total_invest_usdt) {
            Err(e) => Err(e),
            Ok(entries) => {
                let record = records.last();
                let entry = profit_entry(record, total_profit_usdt, total_invest_usdt);
                if record.revoked_at != 0 {
                    Ok(entries)
                } else if profit_ratio(record.amount_usdt, total_invest_usdt) > u16::MAX {
                    Err(ErrorCode::BpRatioOverflow)
                } else if total_amount(profit_payouts(entries)) + entry.amount_usdt > u64::MAX {
                    Err(ErrorCode::NumericalOverflow)
                } else {
                    Ok(entries.push(entry))
                }
            },
        }
    }
}

/// Once a record fails a profit plan, the records that follow change nothing.
proof fn lemma_profit_error_stays(
    records: Seq<InvestmentRecord>,
    upto: int,
    total_profit_usdt: u64,
    total_invest_usdt: u64,
)
    requires
        0 <= upto <= records.len(),
        profit_entries(records.take(upto), total_profit_usdt, total_invest_usdt) is Err,
    ensures
        profit_entries(records, total_profit_usdt, total_invest_usdt) == profit_entries(
            records.take(upto),
            total_profit_usdt,
            total_invest_usdt,
        ),
    decreases records.len() - upto,
{
    if upto < records.len() {
        assert(records.take(upto + 1).drop_last() =~= records.take(upto));
        lemma_profit_error_stays(records, upto + 1, total_profit_usdt, total_invest_usdt);
    } else {
        assert(records.take(upto) =~= records);
    }
}

/// The entries of a profit plan and their sum.
pub fn plan_profit_entries(
    records: &[InvestmentRecord],
    total_profit_usdt: u64,
    total_invest_usdt: u64,
) -> (outcome: Result<(Vec<ProfitEntry>, u64), ErrorCode>)
    requires
        total_invest_usdt > 0,
    ensures
        match outcome {
            Ok((entries, subtotal)) => {
                &&& profit_entries(records@, total_profit_usdt, total_invest_usdt) == Ok::<
                    Seq<ProfitEntry>,
                    ErrorCode,
                >(entries@)
                &&& subtotal == total_amount(profit_payouts(entries@))
                &&& entries@.len() <= records@.len()
            },
            Err(e) => profit_entries(records@, total_profit_usdt, total_invest_usdt) == Err::<
                Seq<ProfitEntry>,
                ErrorCode,
            >(e),
        },
{
    let mut entries: Vec<ProfitEntry> = Vec::new();
    let mut subtotal: u64 = 0;
    let mut i: usize = 0;
    proof {
        assert(profit_payouts(entries@) =~= Seq::<Payout>::empty());
    }
    while i < records.len()
        invariant
            i <= records@.len(),
            total_invest_usdt > 0,
            entries@.len() <= i,
            subtotal == total_amount(profit_payouts(entries@)),
            profit_entries(records@.take(i as int), total_profit_usdt, total_invest_usdt) == Ok::<
                Seq<ProfitEntry>,
                ErrorCode,
            >(entries@),
        decreases records@.len() - i,
    {
        let record = records[i];
        proof {
            assert(records@.take(i + 1).drop_last() =~= records@.take(i as int));
            assert(records@.take(i + 1).last() == record);
        }
        if record.revoked_at == 0 {
            let ratio_bp = match ratio_in_basis_points(record.amount_usdt, total_invest_usdt) {
                Some(bp) => bp,
                None => {
                    proof {
                        lemma_profit_error_stays(
                            records@,
                            i + 1,
                            total_profit_usdt,
                            total_invest_usdt,
                        );
                    }
                    return Err(ErrorCode::BpRatioOverflow);
                },
            };
            let amount = share_of_profit(total_profit_usdt, ratio_bp);
            subtotal = match subtotal.checked_add(amount) {
                Some(sum) => sum,
                None => {
                    proof {
                        lemma_profit_error_stays(
                            records@,
                            i + 1,
                            total_profit_usdt,
                            total_invest_usdt,
                        );
                    }
                    return Err(ErrorCode::NumericalOverflow);
                },
            };
            let entry = ProfitEntry {
                account_id: record.account_id,
                wallet: record.wallet,
                amount_usdt: amount,
                ratio_bp,
            };
            proof {
                assert(entry == profit_entry(record, total_profit_usdt, total_invest_usdt));
                assert(profit_payouts(entries@.push(entry)) =~= profit_payouts(entries@).push(
                    profit_payout(entry),
                ));
                lemma_total_amount_push(profit_payouts(entries@), profit_payout(entry));
            }
            entries.push(entry);
        }
        i += 1;
    }
    proof {
        assert(records@.take(records@.len() as int) =~= records@);
    }
    Ok((entries, subtotal))
}

/// The records that a profit estimate of a batch works on, or why there is
/// no estimate: what is decided before any share is computed.
pub open spec fn profit_batch(
    info: InvestmentInfoView,
    program_id: Key,
    cache_key: Key,
    signers: Seq<Key>,
    candidates: Seq<CandidateRecord>,
    batch_id: u16,
) -> Result<Seq<InvestmentRecord>, ErrorCode> {
    if !is_derived(
        cache_key,
        profit_cache_seeds(info.investment_id, info.version, batch_id),
        program_id,
    ) {
        Err(ErrorCode::InvalidProfitCachePda)
    } else if !info.is_active {
        Err(ErrorCode::InvestmentInfoDeactivated)
    } else if distribution_gate(info) is Err {
        Err(ErrorCode::InvestmentInfoNotCompleted)
    } else if info.investment_type != InvestmentType::Standard {
        Err(ErrorCode::StandardOnly)
    } else if !any_listed(signers, info.execute_whitelist, info.update_whitelist) {
        Err(ErrorCode::UnauthorizedSigner)
    } else if candidates.len() > MAX_ENTRIES_PER_BATCH {
        Err(ErrorCode::TooManyRecordsLoaded)
    } else {
        match collect_records(candidates, info.investment_id, info.version, batch_id, program_id) {
            Err(e) => Err(e),
            Ok(records) => if records.len() == 0 {
                Err(ErrorCode::TooManyRecordsLoaded)
            } else {
                Ok(records)
            },
        }
    }
}

/// The entries given, unless there are none: a plan has at least one entry.
pub open spec fn some_profit_entries(entries: Result<Seq<ProfitEntry>, ErrorCode>) -> Result<
    Seq<ProfitEntry>,
    ErrorCode,
> {
    match entries {
        Err(e) => Err(e),
        Ok(entries) => if entries.len() == 0 {
            Err(ErrorCode::TooManyRecordsLoaded)
        } else {
            Ok(entries)
        },
    }
}

/// The entries of the profit plan of a batch, or why no plan is made. No
/// plan is made of a batch of which no record is in force.
pub open spec fn profit_estimate(
    info: InvestmentInfoView,
    program_id: Key,
    cache_key: Key,
    signers: Seq<Key>,
    candidates: Seq<CandidateRecord>,
    batch_id: u16,
    total_profit_usdt: u64,
    total_invest_usdt: u64,
) -> Result<Seq<ProfitEntry>, ErrorCode> {
    match profit_batch(info, program_id, cache_key, signers, candidates, batch_id) {
        Err(e) => Err(e),
        Ok(records) => some_profit_entries(
            profit_entries(records, total_profit_usdt, total_invest_usdt),
        ),
    }
}

/// The profit plan that holds `entries`, made at `now` for the batch.
pub open spec fn profit_plan(
    info: InvestmentInfoView,
    batch_id: u16,
    entries: Seq<ProfitEntry>,
    now: i64,
) -> ProfitShareCacheView {
    ProfitShareCacheView {
        batch_id,
        investment_id: info.investment_id,
        version: info.version,
        subtotal_profit_usdt: total_amount(profit_payouts(entries)) as u64,
        subtotal_estimate_sol: gas_estimate(entries.len()) as u64,
        executed_at: 0,
        created_at: now,
        entries,
    }
}

/// The cache after an estimate of profit: the new plan, or the cache as it
/// was where no plan is made.
pub open spec fn profit_estimate_step(
    before: ProfitShareCacheView,
    info: InvestmentInfoView,
    program_id: Key,
    cache_key: Key,
    signers: Seq<Key>,
    candidates: Seq<CandidateRecord>,
    batch_id: u16,
    total_profit_usdt: u64,
    total_invest_usdt: u64,
    now: i64,
) -> ProfitShareCacheView {
    match profit_estimate(
        info,
        program_id,
        cache_key,
        signers,
        candidates,
        batch_id,
        total_profit_usdt,
        total_invest_usdt,
    ) {
        Ok(entries) => profit_plan(info, batch_id, entries, now),
        Err(_) => before,
    }
}

impl ProfitShareCache {
    /// What every plan made by an estimate satisfies: one to thirty
    /// entries, a subtotal that is their sum, and the gas estimate of that
    /// many entries.
    pub open spec fn wf(self) -> bool {
        &&& 1 <= self.entries@.len() <= MAX_ENTRIES_PER_BATCH
        &&& self.subtotal_profit_usdt == total_amount(profit_payouts(self.entries@))
        &&& self.subtotal_estimate_sol == gas_estimate(self.entries@.len())
    }
}

impl RefundShareCache {
    /// What every plan made by an estimate satisfies: one to thirty
    /// entries, a subtotal that is their sum, and the gas estimate of that
    /// many entries.
    pub open spec fn wf(self) -> bool {
        &&& 1 <= self.entries@.len() <= MAX_ENTRIES_PER_BATCH
        &&& self.subtotal_refund_hcoin == total_amount(refund_payouts(self.entries@))
        &&& self.subtotal_estimate_sol == gas_estimate(self.entries@.len())
    }
}

/// Makes the checks of a profit estimate that come before any share is
/// computed, and gathers the records of the batch.
pub fn gather_profit_batch(
    info: &InvestmentInfo,
    program_id: &Key,
    cache_key: &Key,
    signers: &[Key],
    candidates: &[CandidateRecord],
    batch_id: u16,
) -> (outcome: Result<Vec<InvestmentRecord>, ErrorCode>)
    ensures
        match outcome {
            Ok(records) => {
                &&& profit_batch(info@, *program_id, *cache_key, signers@, candidates@, batch_id)
                    == Ok::<Seq<InvestmentRecord>, ErrorCode>(records@)
                &&& 1 <= records@.len() <= MAX_ENTRIES_PER_BATCH
            },
            Err(e) => profit_batch(info@, *program_id, *cache_key, signers@, candidates@, batch_id)
                == Err::<Seq<InvestmentRecord>, ErrorCode>(e),
        },
{
    if !is_profit_cache_address(
        cache_key,
        &info.investment_id,
        &info.version,
        batch_id,
        program_id,
    ) {
        return Err(ErrorCode::InvalidProfitCachePda);
    }
    match check_distribution_gate(info) {
        Ok(_) => {},
        Err(e) => {
            return Err(e);
        },
    }
    match info.investment_type {
        InvestmentType::Standard => {},
        InvestmentType::Csr => {
            return Err(ErrorCode::StandardOnly);
        },
    }
    if !any_signer_listed(
        signers,
        info.execute_whitelist.as_slice(),
        info.update_whitelist.as_slice(),
    ) {
        return Err(ErrorCode::UnauthorizedSigner);
    }
    if candidates.len() > MAX_ENTRIES_PER_BATCH {
        return Err(ErrorCode::TooManyRecordsLoaded);
    }
    let records = match collect_batch_records(
        candidates,
        &info.investment_id,
        &info.version,
        batch_id,
        program_id,
    ) {
        Ok(records) => records,
        Err(e) => {
            return Err(e);
        },
    };
    if records.len() == 0 {
        return Err(ErrorCode::TooManyRecordsLoaded);
    }
    Ok(records)
}

/// Plans the profit of the records gathered and stores the plan in `cache`.
fn store_profit_plan(
    info: &InvestmentInfo,
    cache: &mut ProfitShareCache,
    records: &[InvestmentRecord],
    batch_id: u16,
    total_profit_usdt: u64,
    total_invest_usdt: u64,
    now: i64,
) -> (outcome: Result<(), ErrorCode>)
    requires
        total_invest_usdt > 0,
        records@.len() <= MAX_ENTRIES_PER_BATCH,
    ensures
        match outcome {
            Ok(_) => {
                &&& some_profit_entries(
                    profit_entries(records@, total_profit_usdt, total_invest_usdt),
                ) is Ok
                &&& final(cache)@ == profit_plan(
                    info@,
                    batch_id,
                    profit_entries(records@, total_profit_usdt, total_invest_usdt)->Ok_0,
                    now,
                )
                &&& final(cache).wf()
            },
            Err(e) => {
                &&& some_profit_entries(
                    profit_entries(records@, total_profit_usdt, total_invest_usdt),
                ) == Err::<Seq<ProfitEntry>, ErrorCode>(e)
                &&& final(cache)@ == old(cache)@
            },
        },
{
    let (entries, subtotal) = match plan_profit_entries(
        records,
        total_profit_usdt,
        total_invest_usdt,
    ) {
        Ok(plan) => plan,
        Err(e) => {
            return Err(e);
        },
    };
    if entries.len() == 0 {
        return Err(ErrorCode::TooManyRecordsLoaded);
    }
    cache.batch_id = batch_id;
    cache.investment_id = info.investment_id;
    cache.version = info.version;
    cache.subtotal_profit_usdt = subtotal;
    cache.subtotal_estimate_sol = estimate_gas(entries.len() as u16);
    cache.executed_at = 0;
    cache.created_at = now;
    cache.entries = entries;
    Ok(())
}

/// Plans the profit distribution of a batch and stores the plan in `cache`,
/// pending and created at `now`; a plan that the cache held is overwritten.
/// The investment must be active, completed and of the standard kind, and
/// some signer a member of the execute or the update list. Of at most thirty
/// candidates, those of the batch are taken in ascending order of
/// identifier; each record in force gets the part of `total_profit_usdt`
/// that its contribution is of `total_invest_usdt`. A batch of which no
/// record is in force gets no plan. Where no plan is made the cache stays as
/// it was.
pub fn estimate_profit_share(
    info: &InvestmentInfo,
    cache: &mut ProfitShareCache,
    program_id: &Key,
    cache_key: &Key,
    signers: &[Key],
    candidates: &[CandidateRecord],
    batch_id: u16,
    total_profit_usdt: u64,
    total_invest_usdt: u64,
    now: i64,
) -> (outcome: Result<(), ErrorCode>)
    requires
        total_invest_usdt > 0,
    ensures
        match outcome {
            Ok(_) => profit_estimate(
                info@,
                *program_id,
                *cache_key,
                signers@,
                candidates@,
                batch_id,
                total_profit_usdt,
                total_invest_usdt,
            ) is Ok && final(cache).wf(),
            Err(e) => profit_estimate(
                info@,
                *program_id,
                *cache_key,
                signers@,
                candidates@,
                batch_id,
                total_profit_usdt,
                total_invest_usdt,
            ) == Err::<Seq<ProfitEntry>, ErrorCode>(e),
        },
        final(cache)@ == profit_estimate_step(
            old(cache)@,
            info@,
            *program_id,
            *cache_key,
            signers@,
            candidates@,
            batch_id,
            total_profit_usdt,
            total_invest_usdt,
            now,
        ),
{
    let records = match gather_profit_batch(
        info,
        program_id,
        cache_key,
        signers,
        candidates,
        batch_id,
    ) {
        Ok(records) => records,
        Err(e) => {
            return Err(e);
        },
    };
    store_profit_plan(
        info,
        cache,
        records.as_slice(),
        batch_id,
        total_profit_usdt,
        total_invest_usdt,
        now,
    )
}

/// Whether some record of the list is in force.
pub open spec fn some_in_force(records: Seq<InvestmentRecord>) -> bool {
    exists|i: int| 0 <= i < records.len() && in_force(#[trigger] records[i])
}

/// Whether some record of the list is in force.
pub fn any_in_force(records: &[InvestmentRecord]) -> (found: bool)
    ensures
        found == some_in_force(records@),
{
    let mut i: usize = 0;
    while i < records.len()
        invariant
            i <= records@.len(),
            forall|j: int| 0 <= j < i ==> !in_force(#[trigger] records@[j]),
        decreases records@.len() - i,
    {
        if records[i].revoked_at == 0 {
            return true;
        }
        i += 1;
    }
    false
}

/// Records of which none is in force get no entries, whatever the totals.
pub proof fn lemma_no_record_in_force(
    records: Seq<InvestmentRecord>,
    total_profit_usdt: u64,
    total_invest_usdt: u64,
)
    requires
        !some_in_force(records),
    ensures
        profit_entries(records, total_profit_usdt, total_invest_usdt) == Ok::<
            Seq<ProfitEntry>,
            ErrorCode,
        >(Seq::empty()),
    decreases records.len(),
{
    if records.len() > 0 {
        let rest = records.drop_last();
        assert(!in_force(records[records.len() - 1]));
        assert(!some_in_force(rest)) by {
            if some_in_force(rest) {
                let i = choose|i: int| 0 <= i < rest.len() && in_force(#[trigger] rest[i]);
                assert(in_force(records[i]));
            }
        }
        lemma_no_record_in_force(rest, total_profit_usdt, total_invest_usdt);
    }
}

/// Whether a profit estimate divides by the whole investment: it passes the
/// checks that come first, and some record of the batch is in force.
pub open spec fn profit_estimate_divides(
    info: InvestmentInfoView,
    program_id: Key,
    cache_key: Key,
    signers: Seq<Key>,
    candidates: Seq<CandidateRecord>,
    batch_id: u16,
) -> bool {
    match profit_batch(info, program_id, cache_key, signers, candidates, batch_id) {
        Err(_) => false,
        Ok(records) => some_in_force(records),
    }
}

/// Plans the profit distribution of a batch as `estimate_profit_share`
/// does, for any whole investment: where it is zero and the estimate would
/// divide by it, there is no outcome and the cache stays as it was.
pub fn try_estimate_profit_share(
    info: &InvestmentInfo,
    cache: &mut ProfitShareCache,
    program_id: &Key,
    cache_key: &Key,
    signers: &[Key],
    candidates: &[CandidateRecord],
    batch_id: u16,
    total_profit_usdt: u64,
    total_invest_usdt: u64,
    now: i64,
) -> (outcome: Option<Result<(), ErrorCode>>)
    ensures
        outcome is None <==> total_invest_usdt == 0 && profit_estimate_divides(
            info@,
            *program_id,
            *cache_key,
            signers@,
            candidates@,
            batch_id,
        ),
        match outcome {
            None => final(cache)@ == old(cache)@,
            Some(Ok(_)) => {
                &&& profit_estimate(
                    info@,
                    *program_id,
                    *cache_key,
                    signers@,
                    candidates@,
                    batch_id,
                    total_profit_usdt,
                    total_invest_usdt,
                ) is Ok
                &&& final(cache).wf()
            },
            Some(Err(e)) => profit_estimate(
                info@,
                *program_id,
                *cache_key,
                signers@,
                candidates@,
                batch_id,
                total_profit_usdt,
                total_invest_usdt,
            ) == Err::<Seq<ProfitEntry>, ErrorCode>(e),
        },
        outcome is Some ==> final(cache)@ == profit_estimate_step(
            old(cache)@,
            info@,
            *program_id,
            *cache_key,
            signers@,
            candidates@,
            batch_id,
            total_profit_usdt,
            total_invest_usdt,
            now,
        ),
{
    let records = match gather_profit_batch(
        info,
        program_id,
        cache_key,
        signers,
        candidates,
        batch_id,
    ) {
        Ok(records) => records,
        Err(e) => {
            return Some(Err(e));
        },
    };
    if total_invest_usdt == 0 {
        if any_in_force(records.as_slice()) {
            return None;
        }
        proof {
            lemma_no_record_in_force(records@, total_profit_usdt, total_invest_usdt);
        }
        return Some(Err(ErrorCode::TooManyRecordsLoaded));
    }
    Some(
        store_profit_plan(
            info,
            cache,
            records.as_slice(),
            batch_id,
            total_profit_usdt,
            total_invest_usdt,
            now,
        ),
    )
}

/// The number of whole years of 365 days from `end_at` to `now`; none
/// before `end_at`.
pub open spec fn elapsed_years(now: i64, end_at: i64) -> int {
    if now <= end_at {
        0
    } else {
        (now - end_at) / (SECONDS_PER_YEAR as int)
    }
}

/// Whether refunds of the year `year_index` may be planned at `now`: the
/// year lies in the refund years and has been reached since `end_at`.
pub open spec fn refund_year_open(year_index: u8, now: i64, end_at: i64) -> bool {
    START_YEAR_INDEX <= year_index <= MAX_YEAR_INDEX && year_index <= elapsed_years(now, end_at)
}

/// Whether refunds of the year `year_index` may be planned at `now`.
pub fn is_refund_year_open(year_index: u8, now: i64, end_at: i64) -> (open: bool)
    ensures
        open == refund_year_open(year_index, now, end_at),
{
    if year_index < START_YEAR_INDEX || year_index > MAX_YEAR_INDEX {
        return false;
    }
    if now <= end_at {
        return false;
    }
    let elapsed: i128 = now as i128 - end_at as i128;
    let years: i128 = elapsed / (SECONDS_PER_YEAR as i128);
    (year_index as i128) <= years
}

/// The entry that a record in force gets of the refund of a year.
pub open spec fn refund_entry(
    record: InvestmentRecord,
    stage_ratio: StageRatio,
    year_index: u8,
) -> RefundEntry {
    RefundEntry {
        account_id: record.account_id,
        wallet: record.wallet,
        amount_hcoin: refund_share(
            record.amount_hcoin,
            RefundShareCache::refund_percentage(stage_ratio, record.stage, year_index),
        ) as u64,
        stage: record.stage,
    }
}

/// The entries of a refund plan for the records given, in their order.
/// Revoked records get none. The plan fails at the first record with whose
/// share the sum leaves the range of amounts.
pub open spec fn refund_entries(
    records: Seq<InvestmentRecord>,
    stage_ratio: StageRatio,
    year_index: u8,
) -> Result<Seq<RefundEntry>, ErrorCode>
    decreases records.len(),
{
    if records.len() == 0 {
        Ok(Seq::empty())
    } else {
        match refund_entries(records.drop_last(), stage_ratio, year_index) {
            Err(e) => Err(e),
            Ok(entries) => {
                let record = records.last();
                let entry = refund_entry(record, stage_ratio, year_index);
                if record.revoked_at != 0 {
                    Ok(entries)
                } else if total_amount(refund_payouts(entries)) + entry.amount_hcoin > u64::MAX {
                    Err(ErrorCode::NumericalOverflow)
                } else {
                    Ok(entries.push(entry))
                }
            },
        }
    }
}

/// Once a record fails a refund plan, the records that follow change nothing.
proof fn lemma_refund_error_stays(
    records: Seq<InvestmentRecord>,
    upto: int,
    stage_ratio: StageRatio,
    year_index: u8,
)
    requires
        0 <= upto <= records.len(),
        refund_entries(records.take(upto), stage_ratio, year_index) is Err,
    ensures
        refund_entries(records, stage_ratio, year_index) == refund_entries(
            records.take(upto),
            stage_ratio,
            year_index,
        ),
    decreases records.len() - upto,
{
    if upto < records.len() {
        assert(records.take(upto + 1).drop_last() =~= records.take(upto));
        lemma_refund_error_stays(records, upto + 1, stage_ratio, year_index);
    } else {
        assert(records.take(upto) =~= records);
    }
}

/// The entries of a refund plan and their sum.
pub fn plan_refund_entries(
    records: &[InvestmentRecord],
    stage_ratio: &StageRatio,
    year_index: u8,
) -> (outcome: Result<(Vec<RefundEntry>, u64), ErrorCode>)
    ensures
        match outcome {
            Ok((entries, subtotal)) => {
                &&& refund_entries(records@, *stage_ratio, year_index) == Ok::<
                    Seq<RefundEntry>,
                    ErrorCode,
                >(entries@)
                &&& subtotal == total_amount(refund_payouts(entries@))
                &&& entries@.len() <= records@.len()
            },
            Err(e) => refund_entries(records@, *stage_ratio, year_index) == Err::<
                Seq<RefundEntry>,
                ErrorCode,
            >(e),
        },
{
    let mut entries: Vec<RefundEntry> = Vec::new();
    let mut subtotal: u64 = 0;
    let mut i: usize = 0;
    proof {
        assert(refund_payouts(entries@) =~= Seq::<Payout>::empty());
    }
    while i < records.len()
        invariant
            i <= records@.len(),
            entries@.len() <= i,
            subtotal == total_amount(refund_payouts(entries@)),
            refund_entries(records@.take(i as int), *stage_ratio, year_index) == Ok::<
                Seq<RefundEntry>,
                ErrorCode,
            >(entries@),
        decreases records@.len() - i,
    {
        let record = records[i];
        proof {
            assert(records@.take(i + 1).drop_last() =~= records@.take(i as int));
            assert(records@.take(i + 1).last() == record);
        }
        if record.revoked_at == 0 {
            let percent = RefundShareCache::get_refund_percentage(
                stage_ratio,
                record.stage,
                year_index,
            );
            let amount = share_of_refund(record.amount_hcoin, percent);
            subtotal = match subtotal.checked_add(amount) {
                Some(sum) => sum,
                None => {
                    proof {
                        lemma_refund_error_stays(records@, i + 1, *stage_ratio, year_index);
                    }
                    return Err(ErrorCode::NumericalOverflow);
                },
            };
            let entry = RefundEntry {
                account_id: record.account_id,
                wallet: record.wallet,
                amount_hcoin: amount,
                stage: record.stage,
            };
            proof {
                assert(entry == refund_entry(record, *stage_ratio, year_index));
                assert(refund_payouts(entries@.push(entry)) =~= refund_payouts(entries@).push(
                    refund_payout(entry),
                ));
                lemma_total_amount_push(refund_payouts(entries@), refund_payout(entry));
            }
            entries.push(entry);
        }
        i += 1;
    }
    proof {
        assert(records@.take(records@.len() as int) =~= records@);
    }
    Ok((entries, subtotal))
}

/// The entries of the refund plan of a batch for a year, or why no plan is
/// made. No plan is made of a batch of which no record is in force.
pub open spec fn refund_estimate(
    info: InvestmentInfoView,
    program_id: Key,
    cache_key: Key,
    signers: Seq<Key>,
    candidates: Seq<CandidateRecord>,
    batch_id: u16,
    year_index: u8,
    now: i64,
) -> Result<Seq<RefundEntry>, ErrorCode> {
    if !is_derived(
        cache_key,
        refund_cache_seeds(info.investment_id, info.version, batch_id, year_index),
        program_id,
    ) {
        Err(ErrorCode::InvalidRefundCachePda)
    } else if !info.is_active {
        Err(ErrorCode::InvestmentInfoDeactivated)
    } else if distribution_gate(info) is Err {
        Err(ErrorCode::InvestmentInfoNotCompleted)
    } else if !any_listed(signers, info.execute_whitelist, info.update_whitelist) {
        Err(ErrorCode::UnauthorizedSigner)
    } else if candidates.len() > MAX_ENTRIES_PER_BATCH {
        Err(ErrorCode::TooManyRecordsLoaded)
    } else {
        match collect_records(candidates, info.investment_id, info.version, batch_id, program_id) {
            Err(e) => Err(e),
            Ok(records) => if records.len() == 0 {
                Err(ErrorCode::TooManyRecordsLoaded)
            } else if !refund_year_open(year_index, now, info.end_at) {
                Err(ErrorCode::RefundPeriodInvalid)
            } else {
                match refund_entries(records, info.stage_ratio, year_index) {
                    Err(e) => Err(e),
                    Ok(entries) => if entries.len() == 0 {
                        Err(ErrorCode::TooManyRecordsLoaded)
                    } else {
                        Ok(entries)
                    },
                }
            },
        }
    }
}

/// The refund plan that holds `entries`, made at `now` for the batch and year.
pub open spec fn refund_plan(
    info: InvestmentInfoView,
    batch_id: u16,
    year_index: u8,
    entries: Seq<RefundEntry>,
    now: i64,
) -> RefundShareCacheView {
    RefundShareCacheView {
        batch_id,
        year_index,
        investment_id: info.investment_id,
        version: info.version,
        subtotal_refund_hcoin: total_amount(refund_payouts(entries)) as u64,
        subtotal_estimate_sol: gas_estimate(entries.len()) as u64,
        executed_at: 0,
        created_at: now,
        entries,
    }
}

/// The cache after an estimate of refunds: the new plan, or the cache as it
/// was where no plan is made.
pub open spec fn refund_estimate_step(
    before: RefundShareCacheView,
    info: InvestmentInfoView,
    program_id: Key,
    cache_key: Key,
    signers: Seq<Key>,
    candidates: Seq<CandidateRecord>,
    batch_id: u16,
    year_index: u8,
    now: i64,
) -> RefundShareCacheView {
    match refund_estimate(
        info,
        program_id,
        cache_key,
        signers,
        candidates,
        batch_id,
        year_index,
        now,
    ) {
        Ok(entries) => refund_plan(info, batch_id, year_index, entries, now),
        Err(_) => before,
    }
}

/// Plans the refund distribution of a batch for the year `year_index` and
/// stores the plan in `cache`, pending and created at `now`; a plan that the
/// cache held is overwritten. The investment must be active and completed,
/// some signer a member of the execute or the update list, and the year one
/// of the refund years that has been reached since the investment's end. Of
/// at most thirty candidates, those of the batch are taken in ascending
/// order of identifier; each record in force gets the percentage of its
/// contribution that the schedule gives for its stage and the year. A batch
/// of which no record is in force gets no plan. Where no plan is made the
/// cache stays as it was.
pub fn estimate_refund_share(
    info: &InvestmentInfo,
    cache: &mut RefundShareCache,
    program_id: &Key,
    cache_key: &Key,
    signers: &[Key],
    candidates: &[CandidateRecord],
    batch_id: u16,
    year_index: u8,
    now: i64,
) -> (outcome: Result<(), ErrorCode>)
    ensures
        match outcome {
            Ok(_) => refund_estimate(
                info@,
                *program_id,
                *cache_key,
                signers@,
                candidates@,
                batch_id,
                year_index,
                now,
            ) is Ok && final(cache).wf(),
            Err(e) => refund_estimate(
                info@,
                *program_id,
                *cache_key,
                signers@,
                candidates@,
                batch_id,
                year_index,
                now,
            ) == Err::<Seq<RefundEntry>, ErrorCode>(e),
        },
        final(cache)@ == refund_estimate_step(
            old(cache)@,
            info@,
            *program_id,
            *cache_key,
            signers@,
            candidates@,
            batch_id,
            year_index,
            now,
        ),
{
    if !is_refund_cache_address(
        cache_key,
        &info.investment_id,
        &info.version,
        batch_id,
        year_index,
        program_id,
    ) {
        return Err(ErrorCode::InvalidRefundCachePda);
    }
    match check_distribution_gate(info) {
        Ok(_) => {},
        Err(e) => {
            return Err(e);
        },
    }
    if !any_signer_listed(
        signers,
        info.execute_whitelist.as_slice(),
        info.update_whitelist.as_slice(),
    ) {
        return Err(ErrorCode::UnauthorizedSigner);
    }
    if candidates.len() > MAX_ENTRIES_PER_BATCH {
        return Err(ErrorCode::TooManyRecordsLoaded);
    }
    let records = match collect_batch_records(
        candidates,
        &info.investment_id,
        &info.version,
        batch_id,
        program_id,
    ) {
        Ok(records) => records,
        Err(e) => {
            return Err(e);
        },
    };
    if records.len() == 0 {
        return Err(ErrorCode::TooManyRecordsLoaded);
    }
    if !is_refund_year_open(year_index, now, info.end_at) {
        return Err(ErrorCode::RefundPeriodInvalid);
    }
    let (entries, subtotal) = match plan_refund_entries(
        records.as_slice(),
        &info.stage_ratio,
        year_index,
    ) {
        Ok(plan) => plan,
        Err(e) => {
            return Err(e);
        },
    };
    if entries.len() == 0 {
        return Err(ErrorCode::TooManyRecordsLoaded);
    }
    cache.batch_id = batch_id;
    cache.year_index = year_index;
    cache.investment_id = info.investment_id;
    cache.version = info.version;
    cache.subtotal_refund_hcoin = subtotal;
    cache.subtotal_estimate_sol = estimate_gas(entries.len() as u16);
    cache.executed_at = 0;
    cache.created_at = now;
    cache.entries = entries;
    Ok(())
}

/// Estimating a batch's profit twice from the same inputs gives the same
/// plan: the entries, the subtotal and the gas estimate do not depend on
/// what the cache held before nor on when the estimate is made, the plan is
/// pending, and an estimate repeated at the same time leaves the cache as
/// the first one made it.
pub proof fn lemma_profit_reestimate(
    before: ProfitShareCacheView,
    other: ProfitShareCacheView,
    info: InvestmentInfoView,
    program_id: Key,
    cache_key: Key,
    signers: Seq<Key>,
    candidates: Seq<CandidateRecord>,
    batch_id: u16,
    total_profit_usdt: u64,
    total_invest_usdt: u64,
    now: i64,
    later: i64,
)
    requires
        profit_estimate(
            info,
            program_id,
            cache_key,
            signers,
            candidates,
            batch_id,
            total_profit_usdt,
            total_invest_usdt,
        ) is Ok,
    ensures
        ({
            let first = profit_estimate_step(
                before,
                info,
                program_id,
                cache_key,
                signers,
                candidates,
                batch_id,
                total_profit_usdt,
                total_invest_usdt,
                now,
            );
            let again = profit_estimate_step(
                first,
                info,
                program_id,
                cache_key,
                signers,
                candidates,
                batch_id,
                total_profit_usdt,
                total_invest_usdt,
                later,
            );
            let apart = profit_estimate_step(
                other,
                info,
                program_id,
                cache_key,
                signers,
                candidates,
                batch_id,
                total_profit_usdt,
                total_invest_usdt,
                later,
            );
            &&& again.entries == first.entries
            &&& again.subtotal_profit_usdt == first.subtotal_profit_usdt
            &&& again.subtotal_estimate_sol == first.subtotal_estimate_sol
            &&& again.executed_at == 0
            &&& again == (ProfitShareCacheView { created_at: later, ..first })
            &&& apart == again
            &&& later == now ==> again == first
        }),
{
}

/// The number of whole years since the end of an investment does not fall
/// as time goes on.
pub proof fn lemma_elapsed_years_grow(now: i64, later: i64, end_at: i64)
    requires
        now <= later,
    ensures
        elapsed_years(now, end_at) <= elapsed_years(later, end_at),
{
    if now > end_at {
        vstd::arithmetic::div_mod::lemma_div_is_ordered(
            now - end_at,
            later - end_at,
            SECONDS_PER_YEAR as int,
        );
    } else if later > end_at {
        vstd::arithmetic::div_mod::lemma_div_is_ordered(0, later - end_at, SECONDS_PER_YEAR as int);
    }
}

/// Estimating a batch's refund again from the same inputs, at the same time
/// or later, gives the same plan: the entries, the subtotal and the gas
/// estimate do not depend on what the cache held before nor on when the
/// estimate is repeated, the plan is pending, and an estimate repeated at
/// the same time leaves the cache as the first one made it.
pub proof fn lemma_refund_reestimate(
    before: RefundShareCacheView,
    info: InvestmentInfoView,
    program_id: Key,
    cache_key: Key,
    signers: Seq<Key>,
    candidates: Seq<CandidateRecord>,
    batch_id: u16,
    year_index: u8,
    now: i64,
    later: i64,
)
    requires
        now <= later,
        refund_estimate(
            info,
            program_id,
            cache_key,
            signers,
            candidates,
            batch_id,
            year_index,
            now,
        ) is Ok,
    ensures
        ({
            let first = refund_estimate_step(
                before,
                info,
                program_id,
                cache_key,
                signers,
                candidates,
                batch_id,
                year_index,
                now,
            );
            let again = refund_estimate_step(
                first,
                info,
                program_id,
                cache_key,
                signers,
                candidates,
                batch_id,
                year_index,
                later,
            );
            &&& again.entries == first.entries
            &&& again.subtotal_refund_hcoin == first.subtotal_refund_hcoin
            &&& again.subtotal_estimate_sol == first.subtotal_estimate_sol
            &&& again.executed_at == 0
            &&& again == (RefundShareCacheView { created_at: later, ..first })
            &&& later == now ==> again == first
        }),
{
    lemma_elapsed_years_grow(now, later, info.end_at);
}

/// A revoked record has no part in a profit plan: the plan for a list of
/// records is the plan for those of them that are in force.
pub proof fn lemma_revoked_records_share_no_profit(
    records: Seq<InvestmentRecord>,
    total_profit_usdt: u64,
    total_invest_usdt: u64,
)
    ensures
        profit_entries(records, total_profit_usdt, total_invest_usdt) == profit_entries(
            records.filter(|record: InvestmentRecord| in_force(record)),
            total_profit_usdt,
            total_invest_usdt,
        ),
    decreases records.len(),
{
    reveal(Seq::filter);
    let kept = |record: InvestmentRecord| in_force(record);
    if records.len() > 0 {
        let rest = records.drop_last();
        lemma_revoked_records_share_no_profit(rest, total_profit_usdt, total_invest_usdt);
        if in_force(records.last()) {
            assert(records.filter(kept) == rest.filter(kept).push(records.last()));
            assert(rest.filter(kept).push(records.last()).drop_last() =~= rest.filter(kept));
        }
    }
}

/// A revoked record has no part in a refund plan: the plan for a list of
/// records is the plan for those of them that are in force.
pub proof fn lemma_revoked_records_share_no_refund(
    records: Seq<InvestmentRecord>,
    stage_ratio: StageRatio,
    year_index: u8,
)
    ensures
        refund_entries(records, stage_ratio, year_index) == refund_entries(
            records.filter(|record: InvestmentRecord| in_force(record)),
            stage_ratio,
            year_index,
        ),
    decreases records.len(),
{
    reveal(Seq::filter);
    let kept = |record: InvestmentRecord| in_force(record);
    if records.len() > 0 {
        let rest = records.drop_last();
        lemma_revoked_records_share_no_refund(rest, stage_ratio, year_index);
        if in_force(records.last()) {
            assert(records.filter(kept) == rest.filter(kept).push(records.last()));
            assert(rest.filter(kept).push(records.last()).drop_last() =~= rest.filter(kept));
        }
    }
}

/// Where a profit plan is made, its entries are the shares of the records
/// in force, one for each, in the records' order.
pub proof fn lemma_profit_entries_are_the_shares(
    records: Seq<InvestmentRecord>,
    total_profit_usdt: u64,
    total_invest_usdt: u64,
)
    requires
        profit_entries(records, total_profit_usdt, total_invest_usdt) is Ok,
    ensures
        profit_entries(records, total_profit_usdt, total_invest_usdt)->Ok_0 == records.filter(
            |record: InvestmentRecord| in_force(record),
        ).map_values(
            |record: InvestmentRecord| profit_entry(record, total_profit_usdt, total_invest_usdt),
        ),
    decreases records.len(),
{
    reveal(Seq::filter);
    let kept = |record: InvestmentRecord| in_force(record);
    let share = |record: InvestmentRecord|
        profit_entry(record, total_profit_usdt, total_invest_usdt);
    let entries = profit_entries(records, total_profit_usdt, total_invest_usdt)->Ok_0;
    if records.len() > 0 {
        let rest = records.drop_last();
        lemma_profit_entries_are_the_shares(rest, total_profit_usdt, total_invest_usdt);
        if in_force(records.last()) {
            assert(records.filter(kept) == rest.filter(kept).push(records.last()));
            assert(rest.filter(kept).push(records.last()).map_values(share) =~= rest.filter(
                kept,
            ).map_values(share).push(share(records.last())));
        }
    } else {
        assert(entries =~= records.filter(kept).map_values(share));
    }
}

/// Where a refund plan is made, its entries are the shares of the records
/// in force, one for each, in the records' order.
pub proof fn lemma_refund_entries_are_the_shares(
    records: Seq<InvestmentRecord>,
    stage_ratio: StageRatio,
    year_index: u8,
)
    requires
        refund_entries(records, stage_ratio, year_index) is Ok,
    ensures
        refund_entries(records, stage_ratio, year_index)->Ok_0 == records.filter(
            |record: InvestmentRecord| in_force(record),
        ).map_values(|record: InvestmentRecord| refund_entry(record, stage_ratio, year_index)),
    decreases records.len(),
{
    reveal(Seq::filter);
    let kept = |record: InvestmentRecord| in_force(record);
    let share = |record: InvestmentRecord| refund_entry(record, stage_ratio, year_index);
    let entries = refund_entries(records, stage_ratio, year_index)->Ok_0;
    if records.len() > 0 {
        let rest = records.drop_last();
        lemma_refund_entries_are_the_shares(rest, stage_ratio, year_index);
        if in_force(records.last()) {
            assert(records.filter(kept) == rest.filter(kept).push(records.last()));
            assert(rest.filter(kept).push(records.last()).map_values(share) =~= rest.filter(
                kept,
            ).map_values(share).push(share(records.last())));
        }
    } else {
        assert(entries =~= records.filter(kept).map_values(share));
    }
}

/// The subtotal of a profit plan is the sum of its entries, and the plan
/// has at most one entry for each record.
pub proof fn lemma_profit_plan_adds_up(
    info: InvestmentInfoView,
    batch_id: u16,
    records: Seq<InvestmentRecord>,
    total_profit_usdt: u64,
    total_invest_usdt: u64,
    now: i64,
)
    requires
        profit_entries(records, total_profit_usdt, total_invest_usdt) is Ok,
    ensures
        ({
            let entries = profit_entries(records, total_profit_usdt, total_invest_usdt)->Ok_0;
            let plan = profit_plan(info, batch_id, entries, now);
            &&& entries.len() <= records.len()
            &&& 0 <= total_amount(profit_payouts(entries)) <= u64::MAX
            &&& plan.subtotal_profit_usdt == total_amount(profit_payouts(plan.entries))
        }),
    decreases records.len(),
{
    let entries = profit_entries(records, total_profit_usdt, total_invest_usdt)->Ok_0;
    if records.len() > 0 {
        let rest = records.drop_last();
        lemma_profit_plan_adds_up(info, batch_id, rest, total_profit_usdt, total_invest_usdt, now);
        let before = profit_entries(rest, total_profit_usdt, total_invest_usdt)->Ok_0;
        if in_force(records.last()) {
            let entry = profit_entry(records.last(), total_profit_usdt, total_invest_usdt);
            assert(profit_payouts(before.push(entry)) =~= profit_payouts(before).push(
                profit_payout(entry),
            ));
            lemma_total_amount_push(profit_payouts(before), profit_payout(entry));
        }
    } else {
        assert(profit_payouts(entries) =~= Seq::<Payout>::empty());
    }
}

/// The subtotal of a refund plan is the sum of its entries, and the plan
/// has at most one entry for each record.
pub proof fn lemma_refund_plan_adds_up(
    info: InvestmentInfoView,
    batch_id: u16,
    records: Seq<InvestmentRecord>,
    year_index: u8,
    now: i64,
)
    requires
        refund_entries(records, info.stage_ratio, year_index) is Ok,
    ensures
        ({
            let entries = refund_entries(records, info.stage_ratio, year_index)->Ok_0;
            let plan = refund_plan(info, batch_id, year_index, entries, now);
            &&& entries.len() <= records.len()
            &&& 0 <= total_amount(refund_payouts(entries)) <= u64::MAX
            &&& plan.subtotal_refund_hcoin == total_amount(refund_payouts(plan.entries))
        }),
    decreases records.len(),
{
    let entries = refund_entries(records, info.stage_ratio, year_index)->Ok_0;
    if records.len() > 0 {
        let rest = records.drop_last();
        lemma_refund_plan_adds_up(info, batch_id, rest, year_index, now);
        let before = refund_entries(rest, info.stage_ratio, year_index)->Ok_0;
        if in_force(records.last()) {
            let entry = refund_entry(records.last(), info.stage_ratio, year_index);
            assert(refund_payouts(before.push(entry)) =~= refund_payouts(before).push(
                refund_payout(entry),
            ));
            lemma_total_amount_push(refund_payouts(before), refund_payout(entry));
        }
    } else {
        assert(refund_payouts(entries) =~= Seq::<Payout>::empty());
    }
}

/// Records of which none is in force get no refund entries.
pub proof fn lemma_no_refund_record_in_force(
    records: Seq<InvestmentRecord>,
    stage_ratio: StageRatio,
    year_index: u8,
)
    requires
        !some_in_force(records),
    ensures
        refund_entries(records, stage_ratio, year_index) == Ok::<Seq<RefundEntry>, ErrorCode>(
            Seq::empty(),
        ),
    decreases records.len(),
{
    if records.len() > 0 {
        let rest = records.drop_last();
        assert(!in_force(records[records.len() - 1]));
        assert(!some_in_force(rest)) by {
            if some_in_force(rest) {
                let i = choose|i: int| 0 <= i < rest.len() && in_force(#[trigger] rest[i]);
                assert(in_force(records[i]));
            }
        }
        lemma_no_refund_record_in_force(rest, stage_ratio, year_index);
    }
}

/// Every profit plan has an entry: a batch of which no record is in force
/// is refused, and the cache stays as it was.
pub proof fn lemma_profit_plan_has_an_entry(
    before: ProfitShareCacheView,
    info: InvestmentInfoView,
    program_id: Key,
    cache_key: Key,
    signers: Seq<Key>,
    candidates: Seq<CandidateRecord>,
    batch_id: u16,
    total_profit_usdt: u64,
    total_invest_usdt: u64,
    now: i64,
)
    ensures
        ({
            let batch = profit_batch(info, program_id, cache_key, signers, candidates, batch_id);
            let outcome = profit_estimate(
                info,
                program_id,
                cache_key,
                signers,
                candidates,
                batch_id,
                total_profit_usdt,
                total_invest_usdt,
            );
            let after = profit_estimate_step(
                before,
                info,
                program_id,
                cache_key,
                signers,
                candidates,
                batch_id,
                total_profit_usdt,
                total_invest_usdt,
                now,
            );
            &&& outcome is Ok ==> outcome->Ok_0.len() >= 1 && after.entries.len() >= 1
            &&& batch is Ok && !some_in_force(batch->Ok_0) ==> outcome == Err::<
                Seq<ProfitEntry>,
                ErrorCode,
            >(ErrorCode::TooManyRecordsLoaded) && after == before
        }),
{
    let batch = profit_batch(info, program_id, cache_key, signers, candidates, batch_id);
    if batch is Ok && !some_in_force(batch->Ok_0) {
        lemma_no_record_in_force(batch->Ok_0, total_profit_usdt, total_invest_usdt);
    }
}

/// Every refund plan has an entry: a batch of which no record is in force
/// gets no plan, and the cache stays as it was.
pub proof fn lemma_refund_plan_has_an_entry(
    before: RefundShareCacheView,
    info: InvestmentInfoView,
    program_id: Key,
    cache_key: Key,
    signers: Seq<Key>,
    candidates: Seq<CandidateRecord>,
    batch_id: u16,
    year_index: u8,
    now: i64,
)
    ensures
        ({
            let gathered = collect_records(
                candidates,
                info.investment_id,
                info.version,
                batch_id,
                program_id,
            );
            let outcome = refund_estimate(
                info,
                program_id,
                cache_key,
                signers,
                candidates,
                batch_id,
                year_index,
                now,
            );
            let after = refund_estimate_step(
                before,
                info,
                program_id,
                cache_key,
                signers,
                candidates,
                batch_id,
                year_index,
                now,
            );
            &&& outcome is Ok ==> outcome->Ok_0.len() >= 1 && after.entries.len() >= 1
            &&& gathered is Ok && !some_in_force(gathered->Ok_0) ==> outcome is Err && after
                == before
        }),
{
    let gathered = collect_records(
        candidates,
        info.investment_id,
        info.version,
        batch_id,
        program_id,
    );
    if gathered is Ok && !some_in_force(gathered->Ok_0) {
        lemma_no_refund_record_in_force(gathered->Ok_0, info.stage_ratio, year_index);
    }
}

} // verus!
