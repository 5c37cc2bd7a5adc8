use anchor_lang::prelude::Pubkey;
use h2coin_vault_share::error::ErrorCode;
use h2coin_vault_share::batch::{collect_batch_records, CandidateRecord};
use h2coin_vault_share::estimate::{
    any_in_force, gather_profit_batch, is_refund_year_open, plan_profit_entries,
    plan_refund_entries, try_estimate_profit_share,
};
use h2coin_vault_share::instructions::{estimate_profit_share, estimate_refund_share};
use h2coin_vault_share::keys::Key;
use h2coin_vault_share::payout::{
    estimate_gas, ratio_in_basis_points, saturating_mul, share_of_profit, share_of_refund,
};
use h2coin_vault_share::state::{
    InvestmentInfo, InvestmentRecord, InvestmentState, InvestmentType, ProfitEntry,
    ProfitShareCache, RefundEntry, RefundShareCache, StageRatio,
};

const PROGRAM: Key = [77; 32];
const ID: [u8; 15] = *b"INVEST-00000001";
const VERSION: [u8; 4] = [0, 0, 0, 1];
const BATCH: u16 = 3;
const END_AT: i64 = 1_000_000;
const YEAR: i64 = 365 * 24 * 60 * 60;
const RATIO: StageRatio = [
    [10, 10, 10, 10, 10, 10, 10, 10, 10, 10],
    [0, 0, 0, 0, 0, 0, 0, 0, 0, 0],
    [20, 20, 20, 25, 15, 0, 0, 0, 0, 0],
];

fn key(n: u8) -> Key {
    [n; 32]
}

fn derive(seeds: &[&[u8]]) -> Key {
    Pubkey::find_program_address(seeds, &Pubkey::new_from_array(PROGRAM)).0.to_bytes()
}

fn profit_cache_key(batch: u16) -> Key {
    derive(&[b"profit_cache", &ID, &VERSION, &batch.to_le_bytes()])
}

fn refund_cache_key(batch: u16, year: u8) -> Key {
    derive(&[b"refund_cache", &ID, &VERSION, &batch.to_le_bytes(), &[year]])
}

fn account(n: u8) -> [u8; 15] {
    [n; 15]
}

fn info() -> InvestmentInfo {
    InvestmentInfo {
        investment_id: ID,
        version: VERSION,
        investment_type: InvestmentType::Standard,
        stage_ratio: RATIO,
        start_at: 0,
        end_at: END_AT,
        investment_upper_limit: 0,
        execute_whitelist: vec![key(1), key(2), key(3), key(4), key(5)],
        update_whitelist: vec![key(11), key(12), key(13), key(14), key(15)],
        withdraw_whitelist: vec![],
        vault: key(99),
        state: InvestmentState::Completed,
        is_active: true,
        created_at: 0,
    }
}

fn record(record_id: u64, amount_usdt: u64, amount_hcoin: u64, stage: u8) -> InvestmentRecord {
    InvestmentRecord {
        batch_id: BATCH,
        record_id,
        account_id: account(record_id as u8),
        investment_id: ID,
        version: VERSION,
        wallet: key(100 + record_id as u8),
        amount_usdt,
        amount_hcoin,
        stage,
        revoked_at: 0,
        created_at: 5,
    }
}

fn stored(record: InvestmentRecord) -> CandidateRecord {
    let key = derive(&[
        b"record",
        &ID,
        &VERSION,
        &record.batch_id.to_le_bytes(),
        &record.record_id.to_le_bytes(),
        &record.account_id,
    ]);
    CandidateRecord { key, record }
}

fn stale_profit_cache() -> ProfitShareCache {
    ProfitShareCache {
        batch_id: 900,
        investment_id: [9; 15],
        version: [9; 4],
        subtotal_profit_usdt: 12345,
        subtotal_estimate_sol: 6789,
        executed_at: 44,
        created_at: 33,
        entries: vec![ProfitEntry {
            account_id: [8; 15],
            wallet: key(8),
            amount_usdt: 12345,
            ratio_bp: 1,
        }],
    }
}

fn stale_refund_cache() -> RefundShareCache {
    RefundShareCache {
        batch_id: 900,
        year_index: 9,
        investment_id: [9; 15],
        version: [9; 4],
        subtotal_refund_hcoin: 12345,
        subtotal_estimate_sol: 6789,
        executed_at: 44,
        created_at: 33,
        entries: vec![],
    }
}

fn profit_entry(record_id: u64, amount_usdt: u64, ratio_bp: u16) -> ProfitEntry {
    ProfitEntry {
        account_id: account(record_id as u8),
        wallet: key(100 + record_id as u8),
        amount_usdt,
        ratio_bp,
    }
}

fn refund_entry(record_id: u64, amount_hcoin: u64, stage: u8) -> RefundEntry {
    RefundEntry {
        account_id: account(record_id as u8),
        wallet: key(100 + record_id as u8),
        amount_hcoin,
        stage,
    }
}

fn estimate_profit(
    info: &InvestmentInfo,
    cache: &mut ProfitShareCache,
    signers: &[Key],
    candidates: &[CandidateRecord],
) -> Result<(), ErrorCode> {
    estimate_profit_share(
        info,
        cache,
        &PROGRAM,
        &profit_cache_key(BATCH),
        signers,
        candidates,
        BATCH,
        500_000,
        10_000_000,
        1_234,
    )
}

fn estimate_refund(
    info: &InvestmentInfo,
    cache: &mut RefundShareCache,
    signers: &[Key],
    candidates: &[CandidateRecord],
    year: u8,
    now: i64,
) -> Result<(), ErrorCode> {
    estimate_refund_share(
        info,
        cache,
        &PROGRAM,
        &refund_cache_key(BATCH, year),
        signers,
        candidates,
        BATCH,
        year,
        now,
    )
}

#[test]
fn a_tenth_of_the_investment_gets_a_tenth_of_the_profit() {
    assert_eq!(ratio_in_basis_points(1_000_000, 10_000_000), Some(1000));
    assert_eq!(share_of_profit(500_000, 1000), 50_000);
    let mut cache = stale_profit_cache();
    let candidates = [stored(record(1, 1_000_000, 0, 1))];
    assert_eq!(estimate_profit(&info(), &mut cache, &[key(1)], &candidates), Ok(()));
    assert_eq!(cache.entries, vec![profit_entry(1, 50_000, 1000)]);
    assert_eq!(cache.subtotal_profit_usdt, 50_000);
}

#[test]
fn shares_are_rounded_down() {
    assert_eq!(ratio_in_basis_points(1, 3), Some(3333));
    assert_eq!(ratio_in_basis_points(2, 3), Some(6666));
    assert_eq!(ratio_in_basis_points(1, 10_001), Some(0));
    assert_eq!(ratio_in_basis_points(0, 5), Some(0));
    assert_eq!(share_of_profit(100, 3333), 33);
    assert_eq!(share_of_profit(9_999, 1), 0);
    assert_eq!(share_of_profit(10_000, 1), 1);
    assert_eq!(share_of_refund(199, 50), 99);
    assert_eq!(share_of_refund(1_000, 25), 250);
    assert_eq!(share_of_refund(1_000, 0), 0);
    assert_eq!(share_of_refund(99, 1), 0);
}

#[test]
fn a_ratio_must_fit_in_sixteen_bits() {
    assert_eq!(ratio_in_basis_points(65_535, 10_000), Some(65_535));
    assert_eq!(ratio_in_basis_points(65_536, 10_000), None);
    assert_eq!(ratio_in_basis_points(7, 1), None);
    assert_eq!(ratio_in_basis_points(u64::MAX, u64::MAX), Some(1));
    assert_eq!(ratio_in_basis_points(u64::MAX, 1), None);
}

#[test]
fn products_stop_at_the_largest_amount() {
    assert_eq!(saturating_mul(3, 4), 12);
    assert_eq!(saturating_mul(u64::MAX, 1), u64::MAX);
    assert_eq!(saturating_mul(u64::MAX, 2), u64::MAX);
    assert_eq!(saturating_mul(1 << 32, 1 << 32), u64::MAX);
    assert_eq!(saturating_mul((1 << 32) - 1, 1 << 32), 0xffff_ffff_0000_0000);
    assert_eq!(share_of_profit(u64::MAX, 10_000), u64::MAX / 10_000);
    assert_eq!(share_of_profit(u64::MAX, 1), u64::MAX / 10_000);
    assert_eq!(share_of_refund(u64::MAX, 100), u64::MAX / 100);
    assert_eq!(share_of_refund(u64::MAX, 1), u64::MAX / 100);
    assert_eq!(share_of_refund(u64::MAX / 2, 2), (u64::MAX - 1) / 100);
}

#[test]
fn gas_grows_with_the_entries() {
    assert_eq!(estimate_gas(0), 100_000);
    assert_eq!(estimate_gas(1), 105_000);
    assert_eq!(estimate_gas(30), 250_000);
    assert_eq!(estimate_gas(u16::MAX), 100_000 + 65_535 * 5_000);
}

#[test]
fn a_profit_plan_lists_the_batch_by_record_identifier() {
    let mut revoked = record(4, 9_000_000, 0, 1);
    revoked.revoked_at = 77;
    let mut other_batch = record(2, 9_000_000, 0, 1);
    other_batch.batch_id = BATCH + 1;
    let candidates = [
        stored(record(9, 2_500_000, 0, 1)),
        stored(revoked),
        stored(record(1, 1_000_000, 0, 1)),
        stored(other_batch),
        stored(record(5, 3_333, 0, 1)),
    ];
    let mut cache = stale_profit_cache();
    assert_eq!(estimate_profit(&info(), &mut cache, &[key(12)], &candidates), Ok(()));
    assert_eq!(
        cache,
        ProfitShareCache {
            batch_id: BATCH,
            investment_id: ID,
            version: VERSION,
            subtotal_profit_usdt: 50_000 + 150 + 125_000,
            subtotal_estimate_sol: 100_000 + 3 * 5_000,
            executed_at: 0,
            created_at: 1_234,
            entries: vec![
                profit_entry(1, 50_000, 1000),
                profit_entry(5, 150, 3),
                profit_entry(9, 125_000, 2500),
            ],
        }
    );
}

#[test]
fn estimating_again_gives_the_same_plan() {
    let candidates = [stored(record(9, 2_500_000, 0, 1)), stored(record(1, 1_000_000, 0, 1))];
    let mut first = stale_profit_cache();
    assert_eq!(estimate_profit(&info(), &mut first, &[key(1)], &candidates), Ok(()));
    let mut second = first.clone();
    assert_eq!(estimate_profit(&info(), &mut second, &[key(1)], &candidates), Ok(()));
    assert_eq!(second, first);
    let mut third = ProfitShareCache {
        batch_id: 0,
        investment_id: [0; 15],
        version: [0; 4],
        subtotal_profit_usdt: 0,
        subtotal_estimate_sol: 0,
        executed_at: 0,
        created_at: 0,
        entries: vec![],
    };
    let reordered = [candidates[1], candidates[0]];
    assert_eq!(estimate_profit(&info(), &mut third, &[key(15), key(66)], &reordered), Ok(()));
    assert_eq!(third, first);
}

#[test]
fn a_record_may_come_once() {
    let twice = [
        stored(record(1, 1_000_000, 0, 1)),
        stored(record(2, 1_000_000, 0, 1)),
        stored(record(1, 1_000_000, 0, 1)),
    ];
    let mut cache = stale_profit_cache();
    assert_eq!(
        estimate_profit(&info(), &mut cache, &[key(1)], &twice),
        Err(ErrorCode::DuplicateRecord)
    );
    assert_eq!(cache, stale_profit_cache());
    let mut revoked = record(1, 1_000_000, 0, 1);
    revoked.revoked_at = 5;
    let twice = [stored(revoked), stored(record(1, 1_000_000, 0, 1))];
    assert_eq!(
        estimate_profit(&info(), &mut cache, &[key(1)], &twice),
        Err(ErrorCode::DuplicateRecord)
    );
}

#[test]
fn a_candidate_stands_at_the_address_of_its_identity() {
    let mut moved = stored(record(1, 1_000_000, 0, 1));
    moved.key = stored(record(2, 1_000_000, 0, 1)).key;
    let mut cache = stale_profit_cache();
    assert_eq!(
        estimate_profit(&info(), &mut cache, &[key(1)], &[stored(record(3, 1, 0, 1)), moved]),
        Err(ErrorCode::InvalidRecordPda)
    );
    assert_eq!(cache, stale_profit_cache());
    let mut other_batch = moved;
    other_batch.record.batch_id = BATCH + 1;
    assert_eq!(
        estimate_profit(&info(), &mut cache, &[key(1)], &[stored(record(3, 1, 0, 1)), other_batch]),
        Ok(())
    );
    assert_eq!(cache.entries, vec![profit_entry(3, 0, 0)]);
}

#[test]
fn the_first_refused_candidate_decides_the_error() {
    let mut moved = stored(record(7, 1, 0, 1));
    moved.key = key(0);
    let twice_then_moved = [stored(record(1, 1, 0, 1)), stored(record(1, 1, 0, 1)), moved];
    assert_eq!(
        collect_batch_records(&twice_then_moved, &ID, &VERSION, BATCH, &PROGRAM),
        Err(ErrorCode::DuplicateRecord)
    );
    let moved_then_twice = [moved, stored(record(1, 1, 0, 1)), stored(record(1, 1, 0, 1))];
    assert_eq!(
        collect_batch_records(&moved_then_twice, &ID, &VERSION, BATCH, &PROGRAM),
        Err(ErrorCode::InvalidRecordPda)
    );
}

#[test]
fn gathered_records_ascend_by_identifier() {
    let ids = [50u64, 3, 900, 4, 1, 77, 2];
    let candidates: Vec<CandidateRecord> =
        ids.iter().map(|id| stored(record(*id, *id, 0, 1))).collect();
    let gathered = collect_batch_records(&candidates, &ID, &VERSION, BATCH, &PROGRAM).unwrap();
    let sorted: Vec<u64> = gathered.iter().map(|r| r.record_id).collect();
    assert_eq!(sorted, vec![1, 2, 3, 4, 50, 77, 900]);
    assert_eq!(gathered[4], record(50, 50, 0, 1));
    assert_eq!(collect_batch_records(&[], &ID, &VERSION, BATCH, &PROGRAM), Ok(vec![]));
}

#[test]
fn a_batch_holds_one_to_thirty_candidates() {
    let mut cache = stale_profit_cache();
    assert_eq!(
        estimate_profit(&info(), &mut cache, &[key(1)], &[]),
        Err(ErrorCode::TooManyRecordsLoaded)
    );
    let mut other_batch = record(2, 9_000_000, 0, 1);
    other_batch.batch_id = BATCH + 1;
    assert_eq!(
        estimate_profit(&info(), &mut cache, &[key(1)], &[stored(other_batch)]),
        Err(ErrorCode::TooManyRecordsLoaded)
    );
    let thirty: Vec<CandidateRecord> =
        (1..=30u64).map(|id| stored(record(31 - id, 10_000, 0, 1))).collect();
    assert_eq!(estimate_profit(&info(), &mut cache, &[key(1)], &thirty), Ok(()));
    assert_eq!(cache.entries.len(), 30);
    assert_eq!(cache.entries[0], profit_entry(1, 500, 10));
    assert_eq!(cache.entries[29], profit_entry(30, 500, 10));
    assert_eq!(cache.subtotal_profit_usdt, 15_000);
    assert_eq!(cache.subtotal_estimate_sol, 250_000);
    let mut cache = stale_profit_cache();
    let thirty_one: Vec<CandidateRecord> =
        (1..=31u64).map(|id| stored(record(id, 10_000, 0, 1))).collect();
    assert_eq!(
        estimate_profit(&info(), &mut cache, &[key(1)], &thirty_one),
        Err(ErrorCode::TooManyRecordsLoaded)
    );
    assert_eq!(cache, stale_profit_cache());
}

#[test]
fn a_batch_of_revoked_records_gets_no_plan() {
    let mut revoked = record(4, 9_000_000, 0, 1);
    revoked.revoked_at = -1;
    let mut also_revoked = record(5, 1, 0, 1);
    also_revoked.revoked_at = 9;
    let mut cache = stale_profit_cache();
    assert_eq!(
        estimate_profit(&info(), &mut cache, &[key(1)], &[stored(revoked)]),
        Err(ErrorCode::TooManyRecordsLoaded)
    );
    assert_eq!(
        estimate_profit(&info(), &mut cache, &[key(1)], &[stored(also_revoked), stored(revoked)]),
        Err(ErrorCode::TooManyRecordsLoaded)
    );
    assert_eq!(cache, stale_profit_cache());
    let mut pending = ProfitShareCache { executed_at: 0, ..stale_profit_cache() };
    let before = pending.clone();
    assert_eq!(
        estimate_profit(&info(), &mut pending, &[key(1)], &[stored(revoked)]),
        Err(ErrorCode::TooManyRecordsLoaded)
    );
    assert_eq!(pending, before);
    assert_eq!(
        plan_profit_entries(&[revoked, also_revoked], 500_000, 10_000_000),
        Ok((vec![], 0))
    );
}

#[test]
fn a_batch_of_revoked_records_gets_no_refund_plan() {
    let mut revoked = record(4, 0, 9_000_000, 1);
    revoked.revoked_at = 77;
    let now = END_AT + 3 * YEAR;
    let mut cache = stale_refund_cache();
    assert_eq!(
        estimate_refund(&info(), &mut cache, &[key(1)], &[stored(revoked)], 3, now),
        Err(ErrorCode::TooManyRecordsLoaded)
    );
    assert_eq!(cache, stale_refund_cache());
    assert_eq!(
        estimate_refund(&info(), &mut cache, &[key(1)], &[stored(revoked)], 3, now - 1),
        Err(ErrorCode::RefundPeriodInvalid)
    );
    assert_eq!(
        estimate_refund(
            &info(),
            &mut cache,
            &[key(1)],
            &[stored(revoked), stored(record(5, 0, 0, 1))],
            3,
            now
        ),
        Ok(())
    );
    assert_eq!(cache.entries, vec![refund_entry(5, 0, 1)]);
    assert_eq!(cache.subtotal_refund_hcoin, 0);
}

#[test]
fn an_estimate_that_would_divide_by_nothing_has_no_outcome() {
    let candidates = [stored(record(1, 1_000_000, 0, 1))];
    let cache_key = profit_cache_key(BATCH);
    let mut cache = stale_profit_cache();
    let outcome = try_estimate_profit_share(
        &info(),
        &mut cache,
        &PROGRAM,
        &cache_key,
        &[key(1)],
        &candidates,
        BATCH,
        500_000,
        0,
        1_234,
    );
    assert_eq!(outcome, None);
    assert_eq!(cache, stale_profit_cache());
    let mut revoked = record(1, 1_000_000, 0, 1);
    revoked.revoked_at = 5;
    let outcome = try_estimate_profit_share(
        &info(),
        &mut cache,
        &PROGRAM,
        &cache_key,
        &[key(1)],
        &[stored(revoked)],
        BATCH,
        500_000,
        0,
        1_234,
    );
    assert_eq!(outcome, Some(Err(ErrorCode::TooManyRecordsLoaded)));
    let outcome = try_estimate_profit_share(
        &info(),
        &mut cache,
        &PROGRAM,
        &cache_key,
        &[key(9)],
        &candidates,
        BATCH,
        500_000,
        0,
        1_234,
    );
    assert_eq!(outcome, Some(Err(ErrorCode::UnauthorizedSigner)));
    let mut inactive = info();
    inactive.is_active = false;
    let outcome = try_estimate_profit_share(
        &inactive,
        &mut cache,
        &PROGRAM,
        &cache_key,
        &[key(1)],
        &candidates,
        BATCH,
        500_000,
        0,
        1_234,
    );
    assert_eq!(outcome, Some(Err(ErrorCode::InvestmentInfoDeactivated)));
    let outcome = try_estimate_profit_share(
        &info(),
        &mut cache,
        &PROGRAM,
        &cache_key,
        &[key(1)],
        &[],
        BATCH,
        500_000,
        0,
        1_234,
    );
    assert_eq!(outcome, Some(Err(ErrorCode::TooManyRecordsLoaded)));
    assert_eq!(cache, stale_profit_cache());
}

#[test]
fn an_estimate_for_any_whole_investment_plans_as_the_estimate_does() {
    let candidates = [stored(record(9, 2_500_000, 0, 1)), stored(record(1, 1_000_000, 0, 1))];
    let mut first = stale_profit_cache();
    assert_eq!(estimate_profit(&info(), &mut first, &[key(1)], &candidates), Ok(()));
    let mut second = stale_profit_cache();
    let outcome = try_estimate_profit_share(
        &info(),
        &mut second,
        &PROGRAM,
        &profit_cache_key(BATCH),
        &[key(1)],
        &candidates,
        BATCH,
        500_000,
        10_000_000,
        1_234,
    );
    assert_eq!(outcome, Some(Ok(())));
    assert_eq!(second, first);
    let outcome = try_estimate_profit_share(
        &info(),
        &mut second,
        &PROGRAM,
        &profit_cache_key(BATCH),
        &[key(1)],
        &candidates,
        BATCH,
        500_000,
        10_000_000,
        1_234,
    );
    assert_eq!(outcome, Some(Ok(())));
    assert_eq!(second, first);
}

#[test]
fn the_records_of_a_profit_batch_are_gathered_after_the_checks() {
    let mut revoked = record(4, 9_000_000, 0, 1);
    revoked.revoked_at = -1;
    let candidates = [stored(record(9, 2, 0, 1)), stored(revoked), stored(record(1, 1, 0, 1))];
    let cache_key = profit_cache_key(BATCH);
    assert_eq!(
        gather_profit_batch(&info(), &PROGRAM, &cache_key, &[key(1)], &candidates, BATCH),
        Ok(vec![record(1, 1, 0, 1), revoked, record(9, 2, 0, 1)])
    );
    assert_eq!(
        gather_profit_batch(&info(), &PROGRAM, &cache_key, &[], &candidates, BATCH),
        Err(ErrorCode::UnauthorizedSigner)
    );
    assert_eq!(
        gather_profit_batch(&info(), &PROGRAM, &key(0), &[key(1)], &candidates, BATCH),
        Err(ErrorCode::InvalidProfitCachePda)
    );
    assert!(any_in_force(&[revoked, record(1, 1, 0, 1)]));
    assert!(!any_in_force(&[revoked]));
    assert!(!any_in_force(&[]));
}

#[test]
fn a_profit_estimate_is_checked() {
    let candidates = [stored(record(1, 1_000_000, 0, 1))];
    let mut cache = stale_profit_cache();
    let outcome = estimate_profit_share(
        &info(),
        &mut cache,
        &PROGRAM,
        &profit_cache_key(BATCH + 1),
        &[key(1)],
        &candidates,
        BATCH,
        500_000,
        10_000_000,
        1_234,
    );
    assert_eq!(outcome, Err(ErrorCode::InvalidProfitCachePda));
    let mut inactive = info();
    inactive.is_active = false;
    assert_eq!(
        estimate_profit(&inactive, &mut cache, &[key(1)], &candidates),
        Err(ErrorCode::InvestmentInfoDeactivated)
    );
    let mut pending = info();
    pending.state = InvestmentState::Pending;
    assert_eq!(
        estimate_profit(&pending, &mut cache, &[key(1)], &candidates),
        Err(ErrorCode::InvestmentInfoNotCompleted)
    );
    let mut csr = info();
    csr.investment_type = InvestmentType::Csr;
    assert_eq!(
        estimate_profit(&csr, &mut cache, &[key(1)], &candidates),
        Err(ErrorCode::StandardOnly)
    );
    assert_eq!(
        estimate_profit(&info(), &mut cache, &[key(6), key(16)], &candidates),
        Err(ErrorCode::UnauthorizedSigner)
    );
    assert_eq!(
        estimate_profit(&info(), &mut cache, &[], &candidates),
        Err(ErrorCode::UnauthorizedSigner)
    );
    assert_eq!(cache, stale_profit_cache());
}

#[test]
fn a_ratio_beyond_sixteen_bits_fails_the_estimate() {
    let candidates = [stored(record(1, 1_000_000, 0, 1)), stored(record(2, 70_000_000, 0, 1))];
    let mut cache = stale_profit_cache();
    assert_eq!(
        estimate_profit(&info(), &mut cache, &[key(1)], &candidates),
        Err(ErrorCode::BpRatioOverflow)
    );
    assert_eq!(cache, stale_profit_cache());
    let mut revoked = record(2, 70_000_000, 0, 1);
    revoked.revoked_at = 1;
    let candidates = [stored(record(1, 1_000_000, 0, 1)), stored(revoked)];
    assert_eq!(estimate_profit(&info(), &mut cache, &[key(1)], &candidates), Ok(()));
}

#[test]
fn a_sum_of_profit_beyond_the_range_fails() {
    let records: Vec<InvestmentRecord> = (0..10_001u64).map(|id| record(id, 5, 0, 1)).collect();
    assert_eq!(plan_profit_entries(&records, u64::MAX, 5), Err(ErrorCode::NumericalOverflow));
    let (entries, subtotal) = plan_profit_entries(&records[..10_000], u64::MAX, 5).unwrap();
    assert_eq!(entries.len(), 10_000);
    assert_eq!(subtotal, 10_000 * (u64::MAX / 10_000));
    let mut early = records.clone();
    early[3].amount_usdt = 40;
    assert_eq!(plan_profit_entries(&early, u64::MAX, 5), Err(ErrorCode::BpRatioOverflow));
}

#[test]
fn a_sum_of_refunds_beyond_the_range_fails() {
    let full = [[100, 0, 0, 0, 0, 0, 0, 0, 0, 0], [0; 10], [0; 10]];
    let records: Vec<InvestmentRecord> = (0..101u64).map(|id| record(id, 0, u64::MAX, 1)).collect();
    assert_eq!(plan_refund_entries(&records, &full, 0), Err(ErrorCode::NumericalOverflow));
    let (entries, subtotal) = plan_refund_entries(&records[..100], &full, 0).unwrap();
    assert_eq!(entries.len(), 100);
    assert_eq!(subtotal, 100 * (u64::MAX / 100));
    assert_eq!(plan_refund_entries(&records, &full, 1), Ok((
        (0..101u64).map(|id| refund_entry(id, 0, 1)).collect(),
        0
    )));
}

#[test]
fn refund_years_open_one_by_one() {
    assert!(!is_refund_year_open(3, END_AT + 3 * YEAR - 1, END_AT));
    assert!(is_refund_year_open(3, END_AT + 3 * YEAR, END_AT));
    assert!(!is_refund_year_open(4, END_AT + 3 * YEAR, END_AT));
    assert!(is_refund_year_open(4, END_AT + 4 * YEAR, END_AT));
    assert!(is_refund_year_open(9, END_AT + 9 * YEAR, END_AT));
    assert!(is_refund_year_open(3, END_AT + 100 * YEAR, END_AT));
    assert!(is_refund_year_open(3, i64::MAX, i64::MIN));
}

#[test]
fn refund_years_lie_between_three_and_nine() {
    assert!(!is_refund_year_open(0, END_AT + 100 * YEAR, END_AT));
    assert!(!is_refund_year_open(2, END_AT + 100 * YEAR, END_AT));
    assert!(!is_refund_year_open(10, END_AT + 100 * YEAR, END_AT));
    assert!(!is_refund_year_open(255, END_AT + 300 * YEAR, END_AT));
}

#[test]
fn no_refund_year_is_open_before_the_end() {
    assert!(!is_refund_year_open(3, END_AT, END_AT));
    assert!(!is_refund_year_open(3, END_AT - 1, END_AT));
    assert!(!is_refund_year_open(3, END_AT - YEAR, END_AT));
    assert!(!is_refund_year_open(9, END_AT - 250 * YEAR, END_AT));
    assert!(!is_refund_year_open(3, i64::MIN, i64::MAX));
}

#[test]
fn a_refund_plan_pays_the_percentage_of_stage_and_year() {
    let mut revoked = record(4, 0, 9_000_000, 1);
    revoked.revoked_at = 77;
    let candidates = [
        stored(record(9, 0, 1_000, 3)),
        stored(revoked),
        stored(record(1, 0, 1_999, 1)),
        stored(record(5, 0, 500, 2)),
        stored(record(6, 0, 500, 0)),
        stored(record(7, 0, 500, 4)),
    ];
    let mut cache = stale_refund_cache();
    let now = END_AT + 3 * YEAR + 17;
    assert_eq!(estimate_refund(&info(), &mut cache, &[key(3)], &candidates, 3, now), Ok(()));
    assert_eq!(
        cache,
        RefundShareCache {
            batch_id: BATCH,
            year_index: 3,
            investment_id: ID,
            version: VERSION,
            subtotal_refund_hcoin: 199 + 250,
            subtotal_estimate_sol: 100_000 + 5 * 5_000,
            executed_at: 0,
            created_at: now,
            entries: vec![
                refund_entry(1, 199, 1),
                refund_entry(5, 0, 2),
                refund_entry(6, 0, 0),
                refund_entry(7, 0, 4),
                refund_entry(9, 250, 3),
            ],
        }
    );
}

#[test]
fn estimating_a_refund_again_gives_the_same_plan() {
    let candidates = [stored(record(9, 0, 1_000, 3)), stored(record(1, 0, 1_999, 1))];
    let now = END_AT + 5 * YEAR;
    let mut first = stale_refund_cache();
    assert_eq!(estimate_refund(&info(), &mut first, &[key(3)], &candidates, 4, now), Ok(()));
    let mut second = first.clone();
    assert_eq!(estimate_refund(&info(), &mut second, &[key(3)], &candidates, 4, now), Ok(()));
    assert_eq!(second, first);
    assert_eq!(estimate_refund(&info(), &mut second, &[key(3)], &candidates, 4, now + YEAR), Ok(()));
    assert_eq!(second.entries, first.entries);
    assert_eq!(second.subtotal_refund_hcoin, first.subtotal_refund_hcoin);
    assert_eq!(second.entries, vec![refund_entry(1, 199, 1), refund_entry(9, 150, 3)]);
    assert_eq!(second.created_at, now + YEAR);
}

#[test]
fn a_refund_estimate_is_checked() {
    let candidates = [stored(record(1, 0, 1_000, 1))];
    let now = END_AT + 3 * YEAR;
    let mut cache = stale_refund_cache();
    let outcome = estimate_refund_share(
        &info(),
        &mut cache,
        &PROGRAM,
        &refund_cache_key(BATCH, 4),
        &[key(1)],
        &candidates,
        BATCH,
        3,
        now,
    );
    assert_eq!(outcome, Err(ErrorCode::InvalidRefundCachePda));
    let mut inactive = info();
    inactive.is_active = false;
    assert_eq!(
        estimate_refund(&inactive, &mut cache, &[key(1)], &candidates, 3, now),
        Err(ErrorCode::InvestmentInfoDeactivated)
    );
    let mut pending = info();
    pending.state = InvestmentState::Pending;
    assert_eq!(
        estimate_refund(&pending, &mut cache, &[key(1)], &candidates, 3, now),
        Err(ErrorCode::InvestmentInfoNotCompleted)
    );
    assert_eq!(
        estimate_refund(&info(), &mut cache, &[key(9)], &candidates, 3, now),
        Err(ErrorCode::UnauthorizedSigner)
    );
    assert_eq!(
        estimate_refund(&info(), &mut cache, &[key(1)], &[], 3, now),
        Err(ErrorCode::TooManyRecordsLoaded)
    );
    let twice = [candidates[0], candidates[0]];
    assert_eq!(
        estimate_refund(&info(), &mut cache, &[key(1)], &twice, 3, now),
        Err(ErrorCode::DuplicateRecord)
    );
    assert_eq!(
        estimate_refund(&info(), &mut cache, &[key(1)], &candidates, 3, now - 1),
        Err(ErrorCode::RefundPeriodInvalid)
    );
    assert_eq!(
        estimate_refund(&info(), &mut cache, &[key(1)], &candidates, 2, now),
        Err(ErrorCode::RefundPeriodInvalid)
    );
    assert_eq!(
        estimate_refund(&info(), &mut cache, &[key(1)], &candidates, 3, END_AT - YEAR),
        Err(ErrorCode::RefundPeriodInvalid)
    );
    assert_eq!(cache, stale_refund_cache());
    let mut csr = info();
    csr.investment_type = InvestmentType::Csr;
    assert_eq!(estimate_refund(&csr, &mut cache, &[key(1)], &candidates, 3, now), Ok(()));
}
