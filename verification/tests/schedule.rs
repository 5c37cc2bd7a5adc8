use h2coin_vault_share::error::ErrorCode;
use h2coin_vault_share::schedule::validate_schedule;
use h2coin_vault_share::state::{
    InvestmentInfo, InvestmentState, InvestmentType, RefundShareCache, StageRatio,
};

const ZERO_ROW: [u8; 10] = [0; 10];

fn info_with(stage_ratio: StageRatio) -> InvestmentInfo {
    InvestmentInfo {
        investment_id: [1; 15],
        version: [2; 4],
        investment_type: InvestmentType::Standard,
        stage_ratio,
        start_at: 0,
        end_at: 0,
        investment_upper_limit: 0,
        execute_whitelist: vec![],
        update_whitelist: vec![],
        withdraw_whitelist: vec![],
        vault: [0; 32],
        state: InvestmentState::Pending,
        is_active: true,
        created_at: 0,
    }
}

#[test]
fn a_block_that_starts_late_is_refused() {
    let ratio = [[0, 0, 20, 20, 20, 20, 20, 0, 0, 0], ZERO_ROW, ZERO_ROW];
    assert_eq!(validate_schedule(&ratio), Err(ErrorCode::NonContiguousStage));
    assert_eq!(info_with(ratio).validate_stage_ratio(), Err(ErrorCode::NonContiguousStage));
}

#[test]
fn a_block_at_the_start_is_accepted() {
    let ratio = [[20, 20, 20, 20, 20, 0, 0, 0, 0, 0], ZERO_ROW, ZERO_ROW];
    assert_eq!(validate_schedule(&ratio), Ok(()));
    assert_eq!(info_with(ratio).validate_stage_ratio(), Ok(()));
}

#[test]
fn a_full_row_that_sums_to_a_hundred_is_accepted() {
    let ratio = [[10; 10], [100, 0, 0, 0, 0, 0, 0, 0, 0, 0], [1, 1, 1, 1, 1, 1, 1, 1, 1, 0]];
    assert_eq!(validate_schedule(&ratio), Ok(()));
}

#[test]
fn a_gap_inside_the_block_is_refused() {
    let ratio = [[10, 0, 10, 0, 0, 0, 0, 0, 0, 0], ZERO_ROW, ZERO_ROW];
    assert_eq!(validate_schedule(&ratio), Err(ErrorCode::NonContiguousStage));
}

#[test]
fn a_value_in_the_last_year_after_a_zero_is_refused() {
    let ratio = [[10, 10, 10, 10, 10, 10, 10, 10, 0, 5], ZERO_ROW, ZERO_ROW];
    assert_eq!(validate_schedule(&ratio), Err(ErrorCode::NonContiguousStage));
}

#[test]
fn a_value_above_a_hundred_is_refused() {
    let ratio = [[101, 0, 0, 0, 0, 0, 0, 0, 0, 0], ZERO_ROW, ZERO_ROW];
    assert_eq!(validate_schedule(&ratio), Err(ErrorCode::InvalidStageRatioValue));
}

#[test]
fn a_value_above_a_hundred_behind_a_zero_counts_as_a_gap() {
    let ratio = [[10, 0, 200, 0, 0, 0, 0, 0, 0, 0], ZERO_ROW, ZERO_ROW];
    assert_eq!(validate_schedule(&ratio), Err(ErrorCode::NonContiguousStage));
}

#[test]
fn a_row_that_sums_above_a_hundred_is_refused() {
    let ratio = [[50, 50, 1, 0, 0, 0, 0, 0, 0, 0], ZERO_ROW, ZERO_ROW];
    assert_eq!(validate_schedule(&ratio), Err(ErrorCode::InvalidStageRatioSum));
}

#[test]
fn a_schedule_of_zeros_is_refused() {
    let ratio = [ZERO_ROW, ZERO_ROW, ZERO_ROW];
    assert_eq!(validate_schedule(&ratio), Err(ErrorCode::EmptyStageRatio));
}

#[test]
fn one_stage_with_values_is_enough() {
    let ratio = [ZERO_ROW, ZERO_ROW, [5, 0, 0, 0, 0, 0, 0, 0, 0, 0]];
    assert_eq!(validate_schedule(&ratio), Ok(()));
}

#[test]
fn the_first_faulty_stage_decides_the_error() {
    let sum_then_gap = [[60, 60, 0, 0, 0, 0, 0, 0, 0, 0], [0, 1, 0, 0, 0, 0, 0, 0, 0, 0], ZERO_ROW];
    assert_eq!(validate_schedule(&sum_then_gap), Err(ErrorCode::InvalidStageRatioSum));
    let gap_then_value = [ZERO_ROW, [0, 1, 0, 0, 0, 0, 0, 0, 0, 0], [255; 10]];
    assert_eq!(validate_schedule(&gap_then_value), Err(ErrorCode::NonContiguousStage));
}

#[test]
fn within_a_row_a_value_is_judged_before_the_sum() {
    let ratio = [[90, 120, 0, 0, 0, 0, 0, 0, 0, 0], ZERO_ROW, ZERO_ROW];
    assert_eq!(validate_schedule(&ratio), Err(ErrorCode::InvalidStageRatioValue));
}

#[test]
fn refund_percentage_reads_the_schedule() {
    let ratio = [
        [1, 2, 3, 4, 5, 6, 7, 8, 9, 10],
        [11, 12, 13, 14, 15, 16, 17, 0, 0, 0],
        [21, 22, 23, 24, 0, 0, 0, 0, 0, 0],
    ];
    assert_eq!(RefundShareCache::get_refund_percentage(&ratio, 1, 0), 1);
    assert_eq!(RefundShareCache::get_refund_percentage(&ratio, 1, 9), 10);
    assert_eq!(RefundShareCache::get_refund_percentage(&ratio, 2, 3), 14);
    assert_eq!(RefundShareCache::get_refund_percentage(&ratio, 3, 3), 24);
    assert_eq!(RefundShareCache::get_refund_percentage(&ratio, 3, 4), 0);
}

#[test]
fn refund_percentage_is_zero_outside_the_schedule() {
    let ratio = [[10; 10], [10; 10], [10; 10]];
    assert_eq!(RefundShareCache::get_refund_percentage(&ratio, 0, 3), 0);
    assert_eq!(RefundShareCache::get_refund_percentage(&ratio, 4, 3), 0);
    assert_eq!(RefundShareCache::get_refund_percentage(&ratio, 255, 3), 0);
    assert_eq!(RefundShareCache::get_refund_percentage(&ratio, 1, 10), 0);
    assert_eq!(RefundShareCache::get_refund_percentage(&ratio, 3, 255), 0);
}

#[test]
fn state_codes_round_trip() {
    assert_eq!(InvestmentState::Init.as_u16(), 0);
    assert_eq!(InvestmentState::Pending.as_u16(), 1);
    assert_eq!(InvestmentState::Completed.as_u16(), 999);
    assert_eq!(InvestmentState::try_from(0), Ok(InvestmentState::Init));
    assert_eq!(InvestmentState::try_from(1), Ok(InvestmentState::Pending));
    assert_eq!(InvestmentState::try_from(999), Ok(InvestmentState::Completed));
    assert_eq!(InvestmentState::try_from(2), Err(()));
    assert_eq!(InvestmentState::try_from(998), Err(()));
    assert_eq!(InvestmentState::try_from(u16::MAX), Err(()));
}

#[test]
fn stored_sizes() {
    assert_eq!(InvestmentInfo::SIZE, 617);
    assert_eq!(h2coin_vault_share::state::InvestmentRecord::SIZE, 117);
    assert_eq!(h2coin_vault_share::state::ProfitShareCache::ENTRY_SIZE, 57);
    assert_eq!(h2coin_vault_share::state::ProfitShareCache::SIZE, 1775);
    assert_eq!(RefundShareCache::ENTRY_SIZE, 56);
    assert_eq!(RefundShareCache::SIZE, 1746);
}
