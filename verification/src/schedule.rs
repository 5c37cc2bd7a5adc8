//! The stage schedule: which tables of refund percentages are accepted.

use vstd::prelude::*;
use crate::error::ErrorCode;
use crate::state::StageRatio;

verus! {

/// Sum of the percentages of a row.
pub open spec fn row_sum(row: Seq<u8>) -> int
    decreases row.len(),
{
    if row.len() == 0 {
        0
    } else {
        row_sum(row.drop_last()) + row.last()
    }
}

/// Every percentage of the row is at most 100.
pub open spec fn row_bounded(row: Seq<u8>) -> bool {
    forall|i: int| 0 <= i < row.len() ==> #[trigger] row[i] <= 100
}

/// The non-zero percentages of the row form one block that starts at the
/// first year: no zero is followed by a non-zero value.
pub open spec fn row_is_prefix_block(row: Seq<u8>) -> bool {
    forall|i: int, j: int|
        0 <= i < j < row.len() && #[trigger] row[j] != 0 ==> #[trigger] row[i] != 0
}

/// A value above 100 stands in the row before any zero.
pub open spec fn row_has_early_excess(row: Seq<u8>) -> bool {
    exists|i: int|
        0 <= i < row.len() && #[trigger] row[i] > 100 && forall|j: int|
            0 <= j < i ==> #[trigger] row[j] != 0
}

/// A row is accepted when its values are bounded, form a block at the start
/// and sum to at most 100.
pub open spec fn row_valid(row: Seq<u8>) -> bool {
    &&& row_bounded(row)
    &&& row_is_prefix_block(row)
    &&& row_sum(row) <= 100
}

/// What is wrong with a row, if anything. A row is read from the first year
/// on, up to its first zero, after which only zeros may follow; the sum is
/// looked at last.
pub open spec fn row_error(row: Seq<u8>) -> Option<ErrorCode> {
    if row_has_early_excess(row) {
        Some(ErrorCode::InvalidStageRatioValue)
    } else if !row_is_prefix_block(row) {
        Some(ErrorCode::NonContiguousStage)
    } else if row_sum(row) > 100 {
        Some(ErrorCode::InvalidStageRatioSum)
    } else {
        None
    }
}

/// Some percentage of the schedule is not zero.
pub open spec fn schedule_has_value(ratio: StageRatio) -> bool {
    exists|stage: int, year: int|
        0 <= stage < 3 && 0 <= year < 10 && #[trigger] ratio[stage][year] != 0
}

/// A schedule is accepted when each of its rows is and some value is not zero.
pub open spec fn schedule_valid(ratio: StageRatio) -> bool {
    &&& forall|stage: int| 0 <= stage < 3 ==> row_valid(#[trigger] ratio[stage]@)
    &&& schedule_has_value(ratio)
}

/// What is wrong with a schedule, if anything: the fault of the first faulty
/// stage, or that all values are zero.
pub open spec fn schedule_error(ratio: StageRatio) -> Option<ErrorCode> {
    if row_error(ratio[0]@) is Some {
        row_error(ratio[0]@)
    } else if row_error(ratio[1]@) is Some {
        row_error(ratio[1]@)
    } else if row_error(ratio[2]@) is Some {
        row_error(ratio[2]@)
    } else if !schedule_has_value(ratio) {
        Some(ErrorCode::EmptyStageRatio)
    } else {
        None
    }
}

/// A row has no fault exactly when it is accepted.
pub proof fn lemma_row_error_none_iff_valid(row: Seq<u8>)
    ensures
        row_error(row) is None <==> row_valid(row),
{
    if row_valid(row) {
        assert(!row_has_early_excess(row));
    }
    if row_error(row) is None {
        assert forall|i: int| 0 <= i < row.len() implies #[trigger] row[i] <= 100 by {
            if row[i] > 100 {
                assert forall|j: int| 0 <= j < i implies #[trigger] row[j] != 0 by {
                    assert(row[i] != 0);
                }
                assert(row_has_early_excess(row));
            }
        }
    }
}

/// A schedule has no fault exactly when it is accepted: each row's non-zero
/// values are one block from the first year on, each value is at most 100,
/// each row sums to at most 100, and some value is not zero.
pub proof fn lemma_schedule_error_none_iff_valid(ratio: StageRatio)
    ensures
        schedule_error(ratio) is None <==> schedule_valid(ratio),
{
    lemma_row_error_none_iff_valid(ratio[0]@);
    lemma_row_error_none_iff_valid(ratio[1]@);
    lemma_row_error_none_iff_valid(ratio[2]@);
    if schedule_error(ratio) is None {
        assert forall|stage: int| 0 <= stage < 3 implies row_valid(#[trigger] ratio[stage]@) by {
            if stage == 0 {
            } else if stage == 1 {
            } else {
                assert(stage == 2);
            }
        }
    }
}

/// The sum of the first values of a row grows by the value that comes next.
proof fn lemma_row_sum_take(row: Seq<u8>, i: int)
    requires
        0 <= i < row.len(),
    ensures
        row_sum(row.take(i + 1)) == row_sum(row.take(i)) + row[i],
{
    assert(row.take(i + 1).drop_last() =~= row.take(i));
}

/// Reads one row and reports its fault, or whether it holds a non-zero value.
fn validate_row(row: &[u8; 10]) -> (outcome: Result<bool, ErrorCode>)
    ensures
        match outcome {
            Ok(has_value) => row_error(row@) is None && has_value == (row[0] != 0),
            Err(e) => row_error(row@) == Some(e),
        },
{
    let mut sum: u32 = 0;
    let mut seen_zero = false;
    let ghost mut first_zero: int = 0;
    let mut i: usize = 0;
    while i < 10
        invariant
            i <= 10,
            sum == row_sum(row@.take(i as int)),
            sum <= 100 * i,
            !seen_zero ==> forall|j: int| 0 <= j < i ==> row[j] != 0 && row[j] <= 100,
            seen_zero ==> {
                &&& 0 <= first_zero < i
                &&& row[first_zero] == 0
                &&& forall|j: int| 0 <= j < first_zero ==> row[j] != 0 && row[j] <= 100
                &&& forall|j: int| first_zero < j < i ==> row[j] == 0
            },
        decreases 10 - i,
    {
        let value = row[i];
        proof {
            lemma_row_sum_take(row@, i as int);
        }
        if !seen_zero {
            if value > 100 {
                assert(row_has_early_excess(row@)) by {
                    assert(row@[i as int] > 100);
                }
                return Err(ErrorCode::InvalidStageRatioValue);
            }
            if value == 0 {
                seen_zero = true;
                proof {
                    first_zero = i as int;
                }
            } else {
                sum = sum + value as u32;
            }
        } else {
            if value != 0 {
                proof {
                    assert(!row_has_early_excess(row@)) by {
                        if row_has_early_excess(row@) {
                            let k = choose|k: int|
                                0 <= k < row@.len() && #[trigger] row@[k] > 100 && forall|j: int|
                                    0 <= j < k ==> #[trigger] row@[j] != 0;
                            if k > first_zero {
                                assert(row@[first_zero] != 0);
                            }
                        }
                    }
                    assert(!row_is_prefix_block(row@)) by {
                        assert(row@[i as int] != 0 && row@[first_zero] == 0);
                    }
                }
                return Err(ErrorCode::NonContiguousStage);
            }
        }
        i += 1;
    }
    proof {
        assert(row@.take(10) =~= row@);
        assert(!row_has_early_excess(row@)) by {
            if row_has_early_excess(row@) {
                let k = choose|k: int|
                    0 <= k < row@.len() && #[trigger] row@[k] > 100 && forall|j: int|
                        0 <= j < k ==> #[trigger] row@[j] != 0;
                if seen_zero && k > first_zero {
                    assert(row@[first_zero] != 0);
                }
            }
        }
        assert(row_is_prefix_block(row@));
    }
    if sum > 100 {
        return Err(ErrorCode::InvalidStageRatioSum);
    }
    Ok(row[0] != 0)
}

/// Accepts or refuses a stage schedule.
pub fn validate_schedule(ratio: &StageRatio) -> (outcome: Result<(), ErrorCode>)
    ensures
        outcome is Ok <==> schedule_valid(*ratio),
        match outcome {
            Ok(_) => schedule_error(*ratio) is None,
            Err(e) => schedule_error(*ratio) == Some(e),
        },
{
    proof {
        lemma_schedule_error_none_iff_valid(*ratio);
    }
    let mut any_nonzero = false;
    let mut stage: usize = 0;
    while stage < 3
        invariant
            stage <= 3,
            forall|s: int| 0 <= s < stage ==> row_error(#[trigger] ratio[s]@) is None,
            any_nonzero == exists|s: int| 0 <= s < stage && #[trigger] ratio[s][0] != 0,
        decreases 3 - stage,
    {
        match validate_row(&ratio[stage]) {
            Ok(has_value) => {
                if has_value {
                    any_nonzero = true;
                }
            },
            Err(e) => {
                assert(row_error(ratio[0]@) is None || stage == 0);
                assert(row_error(ratio[1]@) is None || stage <= 1);
                return Err(e);
            },
        }
        stage += 1;
    }
    proof {
        assert(row_error(ratio[0]@) is None && row_error(ratio[1]@) is None && row_error(
            ratio[2]@,
        ) is None);
        if schedule_has_value(*ratio) {
            let (s, y) = choose|s: int, y: int|
                0 <= s < 3 && 0 <= y < 10 && #[trigger] ratio[s][y] != 0;
            assert(row_is_prefix_block(ratio[s]@));
            if y > 0 {
                assert(ratio[s]@[y] != 0);
                assert(ratio[s]@[0] != 0);
            }
            assert(ratio[s][0] != 0);
        }
        if any_nonzero {
            let s = choose|s: int| 0 <= s < 3 && #[trigger] ratio[s][0] != 0;
            assert(ratio[s][0] != 0);
        }
    }
    if !any_nonzero {
        return Err(ErrorCode::EmptyStageRatio);
    }
    Ok(())
}

} // verus!
