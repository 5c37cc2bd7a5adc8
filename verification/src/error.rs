//! The failures that an operation can report.

use vstd::prelude::*;

verus! {

/// Why an operation was refused. Each call reports at most one.
#[derive(Clone, Copy, Debug, PartialEq, Eq, Structural)]
pub enum ErrorCode {
    /// Math overflow.
    NumericalOverflow,
    /// Unauthorized signer or not enough signatures.
    UnauthorizedSigner,
    /// Withdraw whitelist must be between 1 and 5 entries.
    WhitelistLengthInvalid,
    /// Investment ID is too long or too short, must be 15 bytes.
    InvalidInvestmentIdLength,
    /// stage_ratio length per stage must be exactly 10 elements.
    InvalidStageRatioLength,
    /// Stage ratio value must be between 0 and 100.
    InvalidStageRatioValue,
    /// Stage ratio sum for a single stage must not exceed 100.
    InvalidStageRatioSum,
    /// Stage ratio must be contiguous once non-zero values begin.
    NonContiguousStage,
    /// All stage ratio values are zero.
    EmptyStageRatio,
    /// Investment info not exists.
    InvestmentInfoNotFound,
    /// Investment info has not completed yet.
    InvestmentInfoNotCompleted,
    /// Investment info has completed already.
    InvestmentInfoHasCompleted,
    /// Investment info has been deactivated and can no longer be modified.
    InvestmentInfoDeactivated,
    /// The derived PDA does not match the expected investment info PDA.
    InvalidInvestmentInfoPda,
    /// Record ID mismatch.
    RecordIdMismatch,
    /// Account ID mismatch.
    AccountIdMismatch,
    /// Account ID is too long or too short, must be 15 bytes.
    InvalidAccountIdLength,
    /// Investment record not found.
    InvestmentRecordNotFound,
    /// The derived PDA does not match the expected investment record PDA.
    InvalidRecordPda,
    /// There are not investment records in remainingAccounts.
    NoRecordsInRemainingAccounts,
    /// This record has been revoked already.
    RecordAlreadyRevoked,
    /// No record has been updated.
    NoRecordsUpdated,
    /// Whitelist must contain exactly 5 members
    WhitelistMustBeFive,
    /// Target address already exists in whitelist
    WhitelistAddressExists,
    /// Address to be replaced not found in whitelist
    WhitelistAddressNotFound,
    /// Invalid Vault PDA
    InvalidVaultPda,
    /// Vault token account mint is not USDT or H2coin.
    InvalidTokenMint,
    /// The provided vault ATA does not match the expected associated token address.
    InvalidVaultAta,
    /// Recipient token account mint is not USDT or H2coin.
    InvalidRecipientMint,
    /// Vault token account owner mismatch.
    InvalidVaultOwner,
    /// From token account owner mismatch.
    InvalidFromOwner,
    /// Recipient token account owner mismatch.
    InvalidRecipientOwner,
    /// Investment type must be `Standard`.
    StandardOnly,
    /// Total share does not match.
    TotalShareMismatch,
    /// Profit share cache not found.
    ProfitCacheNotFound,
    /// Profit share cache has expired (older than 25 days)
    ProfitCacheExpired,
    /// Profit already executed.
    ProfitAlreadyExecuted,
    /// Insufficient USDT token balance in vault
    InsufficientTokenBalance,
    /// Insufficient SOL balance in vault to cover estimated gas cost
    InsufficientSolBalance,
    /// Total USDT cannot be 0 or undefined
    InvalidTotalUsdt,
    /// Batch id does not match expected number.
    BatchIdMismatch,
    /// Too many records have been loaded.
    TooManyRecordsLoaded,
    /// Missing associated token account.
    MissingAssociatedTokenAccount,
    /// The derived PDA does not match the expected profit cache PDA.
    InvalidProfitCachePda,
    /// Bp ratio overflowed u16.
    BpRatioOverflow,
    /// Duplicate record_id detected in input records.
    DuplicateRecord,
    /// Refund share cache has expired (older than 25 days)
    RefundCacheExpired,
    /// Refund share cache not found.
    RefundCacheNotFound,
    /// Refund period is invalid
    RefundPeriodInvalid,
    /// Refund share already executed.
    RefundAlreadyExecuted,
    /// Invalid Recipient ATA
    InvalidRecipientATA,
    /// Total H2coin cannot be 0 or undefined
    InvalidTotalH2coin,
    /// The derived PDA does not match the expected refund cache PDA.
    InvalidRefundCachePda,
    /// Whitelist must contain at least one wallet.
    EmptyWhitelist,
    /// Invalid Recipient wallet Address
    InvalidRecipientAddress,
    /// Recipient wallet is not in the withdraw whitelist.
    UnauthorizedRecipient,
    /// Invalid associated token account.
    InvalidAssociatedTokenAccount,
    /// Invalid token program ID. Must be Token 2020(Legacy).
    InvalidTokenProgramID,
    /// Invalid associated token program ID.
    InvalidAssociatedTokenProgramID,
}

} // verus!
