//! The stored entities: an investment's configuration, contribution records
//! and the two kinds of distribution cache, with their validity rules.

use vstd::prelude::*;
use crate::constants::{MAX_ENTRIES_PER_BATCH, MAX_STAGE, MAX_WHITELIST_LEN, MAX_YEAR_INDEX};
use crate::keys::Key;

verus! {

/// Percentages of a refund by stage (row, stage 1 first) and year (column).
pub type StageRatio = [[u8; 10]; 3];

/// Whether an investment takes part in profit sharing.
#[derive(Clone, Copy, Debug, PartialEq, Eq, Structural)]
pub enum InvestmentType {
    /// Eligible for profit sharing.
    Standard,
    /// Not eligible for profit sharing.
    Csr,
}

/// Where an investment stands in its lifecycle.
#[derive(Clone, Copy, Debug, PartialEq, Eq, Structural)]
pub enum InvestmentState {
    /// Not yet set up.
    Init,
    /// Collecting contribution records.
    Pending,
    /// Closed for new records; distributions may run.
    Completed,
}

impl InvestmentState {
    /// The stored number of each state.
    pub open spec fn code(self) -> u16 {
        match self {
            InvestmentState::Init => 0,
            InvestmentState::Pending => 1,
            InvestmentState::Completed => 999,
        }
    }

    /// The place of a state in the lifecycle; a state never moves to a lower one.
    pub open spec fn rank(self) -> nat {
        match self {
            InvestmentState::Init => 0,
            InvestmentState::Pending => 1,
            InvestmentState::Completed => 2,
        }
    }

    /// The stored number of this state.
    pub fn as_u16(self) -> (code: u16)
        ensures
            code == self.code(),
    {
        match self {
            InvestmentState::Init => 0,
            InvestmentState::Pending => 1,
            InvestmentState::Completed => 999,
        }
    }

    /// The state stored as `value`; no other number than the three codes is a state.
    pub fn try_from(value: u16) -> (state: Result<InvestmentState, ()>)
        ensures
            match state {
                Ok(s) => s.code() == value,
                Err(_) => value != 0 && value != 1 && value != 999,
            },
    {
        if value == 0 {
            Ok(InvestmentState::Init)
        } else if value == 1 {
            Ok(InvestmentState::Pending)
        } else if value == 999 {
            Ok(InvestmentState::Completed)
        } else {
            Err(())
        }
    }
}

/// The configuration of one investment.
#[derive(Clone, Debug, PartialEq, Eq)]
pub struct InvestmentInfo {
    /// Identifier of the investment.
    pub investment_id: [u8; 15],
    /// Version of the investment.
    pub version: [u8; 4],
    /// Whether profit is shared.
    pub investment_type: InvestmentType,
    /// Refund percentages by stage and year.
    pub stage_ratio: StageRatio,
    /// Start of the investment period.
    pub start_at: i64,
    /// End of the investment period; refund years count from here.
    pub end_at: i64,
    /// Upper limit of the invested amount.
    pub investment_upper_limit: u64,
    /// Who may authorize distributions and withdrawals.
    pub execute_whitelist: Vec<Key>,
    /// Who may authorize changes of the configuration and of records.
    pub update_whitelist: Vec<Key>,
    /// Who may receive a withdrawal.
    pub withdraw_whitelist: Vec<Key>,
    /// Address of the vault.
    pub vault: Key,
    /// Lifecycle state.
    pub state: InvestmentState,
    /// Cleared by deactivation, for good.
    pub is_active: bool,
    /// When the configuration was created.
    pub created_at: i64,
}

/// An investment's configuration as a mathematical value.
pub ghost struct InvestmentInfoView {
    pub investment_id: [u8; 15],
    pub version: [u8; 4],
    pub investment_type: InvestmentType,
    pub stage_ratio: StageRatio,
    pub start_at: i64,
    pub end_at: i64,
    pub investment_upper_limit: u64,
    pub execute_whitelist: Seq<Key>,
    pub update_whitelist: Seq<Key>,
    pub withdraw_whitelist: Seq<Key>,
    pub vault: Key,
    pub state: InvestmentState,
    pub is_active: bool,
    pub created_at: i64,
}

impl View for InvestmentInfo {
    type V = InvestmentInfoView;

    open spec fn view(&self) -> InvestmentInfoView {
        InvestmentInfoView {
            investment_id: self.investment_id,
            version: self.version,
            investment_type: self.investment_type,
            stage_ratio: self.stage_ratio,
            start_at: self.start_at,
            end_at: self.end_at,
            investment_upper_limit: self.investment_upper_limit,
            execute_whitelist: self.execute_whitelist@,
            update_whitelist: self.update_whitelist@,
            withdraw_whitelist: self.withdraw_whitelist@,
            vault: self.vault,
            state: self.state,
            is_active: self.is_active,
            created_at: self.created_at,
        }
    }
}

/// One investor's contribution.
#[derive(Clone, Copy, Debug, PartialEq, Eq)]
pub struct InvestmentRecord {
    /// Batch that the record is paid with.
    pub batch_id: u16,
    /// Identifier of the record, unique within its batch.
    pub record_id: u64,
    /// Identifier of the investor's account.
    pub account_id: [u8; 15],
    /// Investment that the record belongs to.
    pub investment_id: [u8; 15],
    /// Version of that investment.
    pub version: [u8; 4],
    /// Wallet that payouts go to.
    pub wallet: Key,
    /// Contribution in the primary asset; profit is shared by it.
    pub amount_usdt: u64,
    /// Contribution in the secondary asset; refunds are a part of it.
    pub amount_hcoin: u64,
    /// Stage of the contribution, 1 to 3.
    pub stage: u8,
    /// When the record was revoked; 0 while it is in force.
    pub revoked_at: i64,
    /// When the record was created.
    pub created_at: i64,
}

/// One recipient's share of a profit distribution.
#[derive(Clone, Copy, Debug, PartialEq, Eq)]
pub struct ProfitEntry {
    /// Identifier of the investor's account.
    pub account_id: [u8; 15],
    /// Wallet that the share goes to.
    pub wallet: Key,
    /// Share in the primary asset.
    pub amount_usdt: u64,
    /// The record's part of the whole investment, in basis points.
    pub ratio_bp: u16,
}

/// The planned profit distribution of one batch.
#[derive(Clone, Debug, PartialEq, Eq)]
pub struct ProfitShareCache {
    /// Batch that the plan is for.
    pub batch_id: u16,
    /// Investment that the plan belongs to.
    pub investment_id: [u8; 15],
    /// Version of that investment.
    pub version: [u8; 4],
    /// Sum of the entries' shares.
    pub subtotal_profit_usdt: u64,
    /// Gas that executing the plan is expected to cost.
    pub subtotal_estimate_sol: u64,
    /// When the plan was executed; 0 while it is pending.
    pub executed_at: i64,
    /// When the plan was made.
    pub created_at: i64,
    /// The shares, in ascending order of record identifier.
    pub entries: Vec<ProfitEntry>,
}

/// A profit plan as a mathematical value.
pub ghost struct ProfitShareCacheView {
    pub batch_id: u16,
    pub investment_id: [u8; 15],
    pub version: [u8; 4],
    pub subtotal_profit_usdt: u64,
    pub subtotal_estimate_sol: u64,
    pub executed_at: i64,
    pub created_at: i64,
    pub entries: Seq<ProfitEntry>,
}

impl View for ProfitShareCache {
    type V = ProfitShareCacheView;

    open spec fn view(&self) -> ProfitShareCacheView {
        ProfitShareCacheView {
            batch_id: self.batch_id,
            investment_id: self.investment_id,
            version: self.version,
            subtotal_profit_usdt: self.subtotal_profit_usdt,
            subtotal_estimate_sol: self.subtotal_estimate_sol,
            executed_at: self.executed_at,
            created_at: self.created_at,
            entries: self.entries@,
        }
    }
}

/// One recipient's share of a refund distribution.
#[derive(Clone, Copy, Debug, PartialEq, Eq)]
pub struct RefundEntry {
    /// Identifier of the investor's account.
    pub account_id: [u8; 15],
    /// Wallet that the share goes to.
    pub wallet: Key,
    /// Share in the secondary asset.
    pub amount_hcoin: u64,
    /// Stage of the contribution.
    pub stage: u8,
}

/// The planned refund distribution of one batch for one year.
#[derive(Clone, Debug, PartialEq, Eq)]
pub struct RefundShareCache {
    /// Batch that the plan is for.
    pub batch_id: u16,
    /// Year of the refund, 0-based.
    pub year_index: u8,
    /// Investment that the plan belongs to.
    pub investment_id: [u8; 15],
    /// Version of that investment.
    pub version: [u8; 4],
    /// Sum of the entries' shares.
    pub subtotal_refund_hcoin: u64,
    /// Gas that executing the plan is expected to cost.
    pub subtotal_estimate_sol: u64,
    /// When the plan was executed; 0 while it is pending.
    pub executed_at: i64,
    /// When the plan was made.
    pub created_at: i64,
    /// The shares, in ascending order of record identifier.
    pub entries: Vec<RefundEntry>,
}

/// A refund plan as a mathematical value.
pub ghost struct RefundShareCacheView {
    pub batch_id: u16,
    pub year_index: u8,
    pub investment_id: [u8; 15],
    pub version: [u8; 4],
    pub subtotal_refund_hcoin: u64,
    pub subtotal_estimate_sol: u64,
    pub executed_at: i64,
    pub created_at: i64,
    pub entries: Seq<RefundEntry>,
}

impl View for RefundShareCache {
    type V = RefundShareCacheView;

    open spec fn view(&self) -> RefundShareCacheView {
        RefundShareCacheView {
            batch_id: self.batch_id,
            year_index: self.year_index,
            investment_id: self.investment_id,
            version: self.version,
            subtotal_refund_hcoin: self.subtotal_refund_hcoin,
            subtotal_estimate_sol: self.subtotal_estimate_sol,
            executed_at: self.executed_at,
            created_at: self.created_at,
            entries: self.entries@,
        }
    }
}

impl InvestmentInfo {
    /// Bytes that a stored configuration takes.
    pub const SIZE: usize = 8 + 15 + 4 + 1 + 30 + 8 + 8 + 8 + (4 + MAX_WHITELIST_LEN * 32) + (4
        + MAX_WHITELIST_LEN * 32) + (4 + MAX_WHITELIST_LEN * 32) + 32 + 2 + 1 + 8;
}

impl InvestmentRecord {
    /// Bytes that a stored record takes.
    pub const SIZE: usize = 8 + 2 + 8 + 15 + 15 + 4 + 32 + 8 + 8 + 1 + 8 + 8;
}

impl ProfitShareCache {
    /// Bytes that one stored entry takes.
    pub const ENTRY_SIZE: usize = 15 + 32 + 8 + 2;

    /// Bytes that a stored profit plan takes at most.
    pub const SIZE: usize = 8 + 2 + 15 + 4 + 8 + 8 + 8 + 8 + 4 + MAX_ENTRIES_PER_BATCH * (15 + 32
        + 8 + 2);
}

impl RefundShareCache {
    /// Bytes that one stored entry takes.
    pub const ENTRY_SIZE: usize = 15 + 32 + 8 + 1;

    /// Bytes that a stored refund plan takes at most.
    pub const SIZE: usize = 8 + 2 + 1 + 15 + 4 + 8 + 8 + 8 + 8 + 4 + MAX_ENTRIES_PER_BATCH * (15
        + 32 + 8 + 1);

    /// The percentage of a contribution of `stage` that is refunded in the
    /// year `year_index`: the schedule's value, and 0 outside the schedule.
    pub open spec fn refund_percentage(stage_ratio: StageRatio, stage: u8, year_index: u8) -> u8 {
        if 1 <= stage <= MAX_STAGE && year_index <= MAX_YEAR_INDEX {
            stage_ratio[stage - 1][year_index as int]
        } else {
            0
        }
    }

    /// The percentage of a contribution of `stage` that is refunded in the
    /// year `year_index`.
    pub fn get_refund_percentage(stage_ratio: &StageRatio, stage: u8, year_index: u8) -> (percent:
        u8)
        ensures
            percent == Self::refund_percentage(*stage_ratio, stage, year_index),
    {
        if stage < 1 || stage as usize > MAX_STAGE {
            return 0;
        }
        if year_index > MAX_YEAR_INDEX {
            return 0;
        }
        stage_ratio[(stage - 1) as usize][year_index as usize]
    }
}

/// What a check reads of an account that came with a call: its address
/// and whether its holder signed.
#[derive(Clone, Copy, Debug, PartialEq, Eq)]
pub struct SignerInfo {
    /// Address of the account.
    pub key: Key,
    /// Whether the account's holder signed the call.
    pub is_signer: bool,
}

/// What a check reads of a token account.
#[derive(Clone, Copy, Debug, PartialEq, Eq)]
pub struct TokenAccount {
    /// Address of the token account.
    pub key: Key,
    /// Asset that the account holds.
    pub mint: Key,
    /// Wallet that owns the balance.
    pub owner: Key,
    /// Balance.
    pub amount: u64,
}

} // verus!
