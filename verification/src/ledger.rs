//! The record ledger: contribution records are added while an investment is
//! pending, may have their wallet rebound, and may be revoked once.

use vstd::prelude::*;
use crate::address::{is_derived, is_record_address, record_seeds};
use crate::authorization::signer_check;
use crate::error::ErrorCode;
use crate::keys::{bytes_equal, Key};
use crate::state::{
    InvestmentInfo, InvestmentInfoView, InvestmentRecord, InvestmentState, TokenAccount,
};

verus! {

/// The outcome of the checks on a recipient's two token accounts: each must
/// belong to the recipient and hold its asset.
pub open spec fn recipient_check(
    recipient: Key,
    usdt_account: TokenAccount,
    hcoin_account: TokenAccount,
    usdt_mint: Key,
    hcoin_mint: Key,
) -> Result<(), ErrorCode> {
    if usdt_account.owner != recipient || hcoin_account.owner != recipient {
        Err(ErrorCode::InvalidRecipientOwner)
    } else if usdt_account.mint != usdt_mint || hcoin_account.mint != hcoin_mint {
        Err(ErrorCode::InvalidRecipientMint)
    } else {
        Ok(())
    }
}

/// Checks that a recipient's two token accounts belong to the recipient and
/// hold the two assets.
pub fn check_recipient_accounts(
    recipient: &Key,
    usdt_account: &TokenAccount,
    hcoin_account: &TokenAccount,
    usdt_mint: &Key,
    hcoin_mint: &Key,
) -> (outcome: Result<(), ErrorCode>)
    ensures
        outcome == recipient_check(
            *recipient,
            *usdt_account,
            *hcoin_account,
            *usdt_mint,
            *hcoin_mint,
        ),
{
    if !bytes_equal(&usdt_account.owner, recipient) {
        return Err(ErrorCode::InvalidRecipientOwner);
    }
    if !bytes_equal(&hcoin_account.owner, recipient) {
        return Err(ErrorCode::InvalidRecipientOwner);
    }
    if !bytes_equal(&usdt_account.mint, usdt_mint) {
        return Err(ErrorCode::InvalidRecipientMint);
    }
    if !bytes_equal(&hcoin_account.mint, hcoin_mint) {
        return Err(ErrorCode::InvalidRecipientMint);
    }
    Ok(())
}

/// The outcome of the checks made before a record is added.
pub open spec fn add_record_check(
    info: InvestmentInfoView,
    program_id: Key,
    record_key: Key,
    signers: Seq<Key>,
    recipient: Key,
    recipient_usdt_account: TokenAccount,
    recipient_hcoin_account: TokenAccount,
    usdt_mint: Key,
    hcoin_mint: Key,
    batch_id: u16,
    record_id: u64,
    account_id: [u8; 15],
) -> Result<(), ErrorCode> {
    if !is_derived(
        record_key,
        record_seeds(info.investment_id, info.version, batch_id, record_id, account_id),
        program_id,
    ) {
        Err(ErrorCode::InvalidRecordPda)
    } else if !info.is_active {
        Err(ErrorCode::InvestmentInfoDeactivated)
    } else if info.state == InvestmentState::Completed {
        Err(ErrorCode::InvestmentInfoHasCompleted)
    } else if signer_check(signers, info.update_whitelist) is Err {
        signer_check(signers, info.update_whitelist)
    } else {
        recipient_check(
            recipient,
            recipient_usdt_account,
            recipient_hcoin_account,
            usdt_mint,
            hcoin_mint,
        )
    }
}

/// Makes the record of a contribution to an active investment that is not
/// yet completed, by a quorum of the update list. The record must stand at
/// the address derived from its identity; it starts unrevoked.
pub fn add_investment_record(
    info: &InvestmentInfo,
    program_id: &Key,
    record_key: &Key,
    signers: &[Key],
    recipient: &Key,
    recipient_usdt_account: &TokenAccount,
    recipient_hcoin_account: &TokenAccount,
    usdt_mint: &Key,
    hcoin_mint: &Key,
    batch_id: u16,
    record_id: u64,
    account_id: [u8; 15],
    amount_usdt: u64,
    amount_hcoin: u64,
    stage: u8,
    now: i64,
) -> (outcome: Result<InvestmentRecord, ErrorCode>)
    ensures
        match outcome {
            Ok(record) => {
                &&& add_record_check(
                    info@,
                    *program_id,
                    *record_key,
                    signers@,
                    *recipient,
                    *recipient_usdt_account,
                    *recipient_hcoin_account,
                    *usdt_mint,
                    *hcoin_mint,
                    batch_id,
                    record_id,
                    account_id,
                ) is Ok
                &&& record == (InvestmentRecord {
                    batch_id,
                    record_id,
                    account_id,
                    investment_id: info.investment_id,
                    version: info.version,
                    wallet: *recipient,
                    amount_usdt,
                    amount_hcoin,
                    stage,
                    revoked_at: 0,
                    created_at: now,
                })
            },
            Err(e) => add_record_check(
                info@,
                *program_id,
                *record_key,
                signers@,
                *recipient,
                *recipient_usdt_account,
                *recipient_hcoin_account,
                *usdt_mint,
                *hcoin_mint,
                batch_id,
                record_id,
                account_id,
            ) == Err::<(), ErrorCode>(e),
        },
{
    if !is_record_address(
        record_key,
        &info.investment_id,
        &info.version,
        batch_id,
        record_id,
        &account_id,
        program_id,
    ) {
        return Err(ErrorCode::InvalidRecordPda);
    }
    if !info.is_active {
        return Err(ErrorCode::InvestmentInfoDeactivated);
    }
    match info.state {
        InvestmentState::Completed => {
            return Err(ErrorCode::InvestmentInfoHasCompleted);
        },
        _ => {},
    }
    match info.verify_signers_3_of_5(signers, true) {
        Ok(_) => {},
        Err(e) => {
            return Err(e);
        },
    }
    match check_recipient_accounts(
        recipient,
        recipient_usdt_account,
        recipient_hcoin_account,
        usdt_mint,
        hcoin_mint,
    ) {
        Ok(_) => {},
        Err(e) => {
            return Err(e);
        },
    }
    Ok(
        InvestmentRecord {
            batch_id,
            record_id,
            account_id,
            investment_id: info.investment_id,
            version: info.version,
            wallet: *recipient,
            amount_usdt,
            amount_hcoin,
            stage,
            revoked_at: 0,
            created_at: now,
        },
    )
}

/// Whether a record is one of `account_id` under the investment and does
/// not yet pay to `wallet`.
pub open spec fn needs_rebinding(
    record: InvestmentRecord,
    info: InvestmentInfoView,
    account_id: [u8; 15],
    wallet: Key,
) -> bool {
    &&& record.account_id == account_id
    &&& record.investment_id == info.investment_id
    &&& record.version == info.version
    &&& record.wallet != wallet
}

/// A record after the rebinding of `account_id` to `wallet`.
pub open spec fn rebound(
    record: InvestmentRecord,
    info: InvestmentInfoView,
    account_id: [u8; 15],
    wallet: Key,
) -> InvestmentRecord {
    if needs_rebinding(record, info, account_id, wallet) {
        InvestmentRecord { wallet, ..record }
    } else {
        record
    }
}

/// The records after the rebinding of `account_id` to `wallet`.
pub open spec fn rebound_all(
    records: Seq<InvestmentRecord>,
    info: InvestmentInfoView,
    account_id: [u8; 15],
    wallet: Key,
) -> Seq<InvestmentRecord> {
    records.map_values(|record: InvestmentRecord| rebound(record, info, account_id, wallet))
}

/// The number of records that the rebinding of `account_id` to `wallet`
/// changes.
pub open spec fn rebinding_count(
    records: Seq<InvestmentRecord>,
    info: InvestmentInfoView,
    account_id: [u8; 15],
    wallet: Key,
) -> nat {
    records.filter(
        |record: InvestmentRecord| needs_rebinding(record, info, account_id, wallet),
    ).len()
}

/// The outcome of the checks made before wallets are rebound.
pub open spec fn rebind_check(
    info: InvestmentInfoView,
    signers: Seq<Key>,
    recipient: Key,
    recipient_usdt_account: TokenAccount,
    recipient_hcoin_account: TokenAccount,
    usdt_mint: Key,
    hcoin_mint: Key,
) -> Result<(), ErrorCode> {
    if !info.is_active {
        Err(ErrorCode::InvestmentInfoDeactivated)
    } else if recipient_check(
        recipient,
        recipient_usdt_account,
        recipient_hcoin_account,
        usdt_mint,
        hcoin_mint,
    ) is Err {
        recipient_check(
            recipient,
            recipient_usdt_account,
            recipient_hcoin_account,
            usdt_mint,
            hcoin_mint,
        )
    } else {
        signer_check(signers, info.update_whitelist)
    }
}

/// Makes the checks that come before wallets are rebound: the investment is
/// active, the recipient's token accounts are the recipient's and hold the
/// two assets, and the signers are a quorum of the update list.
pub fn check_rebinding(
    info: &InvestmentInfo,
    signers: &[Key],
    recipient: &Key,
    recipient_usdt_account: &TokenAccount,
    recipient_hcoin_account: &TokenAccount,
    usdt_mint: &Key,
    hcoin_mint: &Key,
) -> (outcome: Result<(), ErrorCode>)
    ensures
        outcome == rebind_check(
            info@,
            signers@,
            *recipient,
            *recipient_usdt_account,
            *recipient_hcoin_account,
            *usdt_mint,
            *hcoin_mint,
        ),
{
    if !info.is_active {
        return Err(ErrorCode::InvestmentInfoDeactivated);
    }
    match check_recipient_accounts(
        recipient,
        recipient_usdt_account,
        recipient_hcoin_account,
        usdt_mint,
        hcoin_mint,
    ) {
        Ok(_) => {},
        Err(e) => {
            return Err(e);
        },
    }
    info.verify_signers_3_of_5(signers, true)
}

/// Binds every record of `account_id` under the investment, among the
/// records given, to the wallet `recipient`, by a quorum of the update list,
/// and tells how many records changed. Records of other accounts or
/// investments, and records already bound to the wallet, stay as they are;
/// where no record changes the call fails.
pub fn update_investment_record_wallets(
    info: &InvestmentInfo,
    signers: &[Key],
    recipient: &Key,
    recipient_usdt_account: &TokenAccount,
    recipient_hcoin_account: &TokenAccount,
    usdt_mint: &Key,
    hcoin_mint: &Key,
    account_id: [u8; 15],
    records: &mut Vec<InvestmentRecord>,
) -> (outcome: Result<usize, ErrorCode>)
    ensures
        match outcome {
            Ok(count) => {
                &&& rebind_check(
                    info@,
                    signers@,
                    *recipient,
                    *recipient_usdt_account,
                    *recipient_hcoin_account,
                    *usdt_mint,
                    *hcoin_mint,
                ) is Ok
                &&& count > 0
                &&& count == rebinding_count(old(records)@, info@, account_id, *recipient)
                &&& final(records)@ == rebound_all(old(records)@, info@, account_id, *recipient)
            },
            Err(e) => {
                &&& final(records)@ == old(records)@
                &&& match rebind_check(
                    info@,
                    signers@,
                    *recipient,
                    *recipient_usdt_account,
                    *recipient_hcoin_account,
                    *usdt_mint,
                    *hcoin_mint,
                ) {
                    Err(early) => e == early,
                    Ok(_) => e == ErrorCode::NoRecordsUpdated && rebinding_count(
                        old(records)@,
                        info@,
                        account_id,
                        *recipient,
                    ) == 0,
                }
            },
        },
{
    match check_rebinding(
        info,
        signers,
        recipient,
        recipient_usdt_account,
        recipient_hcoin_account,
        usdt_mint,
        hcoin_mint,
    ) {
        Ok(_) => {},
        Err(e) => {
            return Err(e);
        },
    }
    let ghost needs = |record: InvestmentRecord|
        needs_rebinding(record, info@, account_id, *recipient);
    let ghost before = records@;
    let mut updated_count: usize = 0;
    let mut i: usize = 0;
    while i < records.len()
        invariant
            i <= records@.len(),
            records@.len() == before.len(),
            needs == |record: InvestmentRecord|
                needs_rebinding(record, info@, account_id, *recipient),
            updated_count == before.take(i as int).filter(needs).len(),
            updated_count <= i,
            forall|j: int|
                0 <= j < i ==> records@[j] == rebound(
                    #[trigger] before[j],
                    info@,
                    account_id,
                    *recipient,
                ),
            forall|j: int| i <= j < before.len() ==> records@[j] == before[j],
        decreases records@.len() - i,
    {
        proof {
            assert(before.take(i + 1).drop_last() =~= before.take(i as int));
            reveal(Seq::filter);
        }
        let record = records[i];
        if bytes_equal(&record.account_id, &account_id) && bytes_equal(
            &record.investment_id,
            &info.investment_id,
        ) && bytes_equal(&record.version, &info.version) && !bytes_equal(
            &record.wallet,
            recipient,
        ) {
            records[i] = InvestmentRecord { wallet: *recipient, ..record };
            updated_count += 1;
        }
        i += 1;
    }
    proof {
        assert(before.take(before.len() as int) =~= before);
        assert(records@ =~= rebound_all(before, info@, account_id, *recipient));
        if updated_count == 0 {
            assert forall|j: int| 0 <= j < before.len() implies records@[j] == before[j] by {
                if needs(before[j]) {
                    before.lemma_filter_contains(needs, j);
                }
            }
            assert(records@ =~= before);
        }
    }
    if updated_count == 0 {
        return Err(ErrorCode::NoRecordsUpdated);
    }
    Ok(updated_count)
}

/// The outcome of the checks made before a record is revoked.
pub open spec fn revoke_check(
    info: InvestmentInfoView,
    record: Option<InvestmentRecord>,
    program_id: Key,
    record_key: Key,
    signers: Seq<Key>,
    batch_id: u16,
    record_id: u64,
    account_id: [u8; 15],
) -> Result<(), ErrorCode> {
    if !is_derived(
        record_key,
        record_seeds(info.investment_id, info.version, batch_id, record_id, account_id),
        program_id,
    ) {
        Err(ErrorCode::InvalidRecordPda)
    } else if record is Some && record->Some_0.record_id != record_id {
        Err(ErrorCode::RecordIdMismatch)
    } else if record is Some && record->Some_0.account_id != account_id {
        Err(ErrorCode::AccountIdMismatch)
    } else if !info.is_active {
        Err(ErrorCode::InvestmentInfoDeactivated)
    } else if record is None {
        Err(ErrorCode::InvestmentRecordNotFound)
    } else if signer_check(signers, info.update_whitelist) is Err {
        signer_check(signers, info.update_whitelist)
    } else if record->Some_0.revoked_at != 0 {
        Err(ErrorCode::RecordAlreadyRevoked)
    } else {
        Ok(())
    }
}

/// Revokes the record stored at the address of the identity given, at
/// `now`, by a quorum of the update list of an active investment. A record
/// is revoked once: a revoked record is left as it is and the call fails, as
/// it does where no record is stored.
pub fn revoked_investment_record(
    info: &InvestmentInfo,
    record: &mut Option<InvestmentRecord>,
    program_id: &Key,
    record_key: &Key,
    signers: &[Key],
    batch_id: u16,
    record_id: u64,
    account_id: [u8; 15],
    now: i64,
) -> (outcome: Result<(), ErrorCode>)
    ensures
        outcome == revoke_check(
            info@,
            *old(record),
            *program_id,
            *record_key,
            signers@,
            batch_id,
            record_id,
            account_id,
        ),
        outcome is Ok ==> *final(record) == Some(
            InvestmentRecord { revoked_at: now, ..(*old(record))->Some_0 },
        ),
        outcome is Err ==> *final(record) == *old(record),
        *old(record) is Some && (*old(record))->Some_0.revoked_at != 0 ==> *final(record) == *old(
            record,
        ),
{
    if !is_record_address(
        record_key,
        &info.investment_id,
        &info.version,
        batch_id,
        record_id,
        &account_id,
        program_id,
    ) {
        return Err(ErrorCode::InvalidRecordPda);
    }
    match record {
        None => {
            if !info.is_active {
                return Err(ErrorCode::InvestmentInfoDeactivated);
            }
            Err(ErrorCode::InvestmentRecordNotFound)
        },
        Some(stored) => {
            if stored.record_id != record_id {
                return Err(ErrorCode::RecordIdMismatch);
            }
            if !bytes_equal(&stored.account_id, &account_id) {
                return Err(ErrorCode::AccountIdMismatch);
            }
            if !info.is_active {
                return Err(ErrorCode::InvestmentInfoDeactivated);
            }
            match info.verify_signers_3_of_5(signers, true) {
                Ok(_) => {},
                Err(e) => {
                    return Err(e);
                },
            }
            if stored.revoked_at != 0 {
                return Err(ErrorCode::RecordAlreadyRevoked);
            }
            stored.revoked_at = now;
            Ok(())
        },
    }
}

} // verus!
