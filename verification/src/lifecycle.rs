//! The lifecycle of an investment's configuration: creation, updates,
//! completion, deactivation and the maintenance of its authorization lists.

use vstd::prelude::*;
use crate::address::{
    investment_seeds, is_derived, is_investment_address, is_vault_address, vault_seeds,
};
use crate::authorization::signer_check;
use crate::constants::MAX_WHITELIST_LEN;
use crate::error::ErrorCode;
use crate::keys::{bytes_equal, list_contains, position_of, Key};
use crate::schedule::{schedule_error, schedule_valid, validate_schedule};
use crate::state::{
    InvestmentInfo, InvestmentInfoView, InvestmentState, InvestmentType, StageRatio, TokenAccount,
};

verus! {

impl InvestmentInfo {
    /// What every stored configuration satisfies: both quorum lists have
    /// five members and the schedule is an accepted one.
    pub open spec fn wf(self) -> bool {
        &&& self.execute_whitelist@.len() == MAX_WHITELIST_LEN
        &&& self.update_whitelist@.len() == MAX_WHITELIST_LEN
        &&& schedule_valid(self.stage_ratio)
    }

    /// Accepts or refuses the configuration's schedule.
    pub fn validate_stage_ratio(&self) -> (outcome: Result<(), ErrorCode>)
        ensures
            outcome is Ok <==> schedule_valid(self.stage_ratio),
            match outcome {
                Ok(_) => schedule_error(self.stage_ratio) is None,
                Err(e) => schedule_error(self.stage_ratio) == Some(e),
            },
    {
        validate_schedule(&self.stage_ratio)
    }
}

/// What holds between a configuration before and after any operation: its
/// identity and terms stay, its state never moves back, a deactivated
/// configuration is never changed or revived, and only a completed one is
/// deactivated.
pub open spec fn lifecycle_step(before: InvestmentInfoView, after: InvestmentInfoView) -> bool {
    &&& after.investment_id == before.investment_id
    &&& after.version == before.version
    &&& after.investment_type == before.investment_type
    &&& after.start_at == before.start_at
    &&& after.end_at == before.end_at
    &&& after.vault == before.vault
    &&& after.created_at == before.created_at
    &&& before.state.rank() <= after.state.rank()
    &&& !before.is_active ==> after == before
    &&& before.is_active && !after.is_active ==> before.state == InvestmentState::Completed
}

/// The first place at which `key` stands in `list`; the length of the list
/// where it stands nowhere.
pub open spec fn first_position(list: Seq<Key>, key: Key) -> int
    decreases list.len(),
{
    if list.len() == 0 {
        0
    } else if list[0] == key {
        0
    } else {
        1 + first_position(list.drop_first(), key)
    }
}

/// `list` with the first occurrence of `from` replaced by `to`.
pub open spec fn replaced_first(list: Seq<Key>, from: Key, to: Key) -> Seq<Key> {
    list.update(first_position(list, from), to)
}

/// The place of the first occurrence is the place before which the key does
/// not stand and at which it does.
pub proof fn lemma_first_position(list: Seq<Key>, key: Key, place: int)
    requires
        0 <= place < list.len(),
        list[place] == key,
        forall|j: int| 0 <= j < place ==> list[j] != key,
    ensures
        first_position(list, key) == place,
    decreases list.len(),
{
    if place > 0 {
        let rest = list.drop_first();
        assert(rest[place - 1] == key);
        assert forall|j: int| 0 <= j < place - 1 implies rest[j] != key by {
            assert(rest[j] == list[j + 1]);
        }
        lemma_first_position(rest, key, place - 1);
    }
}

/// Whether the configuration given stands at the address derived for the
/// investment.
pub open spec fn investment_matches(
    info: InvestmentInfoView,
    info_key: Key,
    program_id: Key,
) -> bool {
    is_derived(info_key, investment_seeds(info.investment_id, info.version), program_id)
}

/// Whether the configuration is active, and if so whether it is completed.
pub open spec fn distribution_gate(info: InvestmentInfoView) -> Result<(), ErrorCode> {
    if !info.is_active {
        Err(ErrorCode::InvestmentInfoDeactivated)
    } else if info.state != InvestmentState::Completed {
        Err(ErrorCode::InvestmentInfoNotCompleted)
    } else {
        Ok(())
    }
}

/// Refuses an inactive configuration, then one that is not completed.
pub fn check_distribution_gate(info: &InvestmentInfo) -> (outcome: Result<(), ErrorCode>)
    ensures
        outcome == distribution_gate(info@),
{
    if !info.is_active {
        return Err(ErrorCode::InvestmentInfoDeactivated);
    }
    match info.state {
        InvestmentState::Completed => Ok(()),
        _ => Err(ErrorCode::InvestmentInfoNotCompleted),
    }
}

/// The outcome of the checks made before a configuration is created.
pub open spec fn initialize_check(
    program_id: Key,
    info_key: Key,
    vault_key: Key,
    usdt_mint: Key,
    hcoin_mint: Key,
    vault_usdt_account: TokenAccount,
    vault_hcoin_account: TokenAccount,
    investment_id: [u8; 15],
    version: [u8; 4],
    stage_ratio: StageRatio,
    execute_whitelist: Seq<Key>,
    update_whitelist: Seq<Key>,
) -> Result<(), ErrorCode> {
    if execute_whitelist.len() != MAX_WHITELIST_LEN || update_whitelist.len()
        != MAX_WHITELIST_LEN {
        Err(ErrorCode::WhitelistMustBeFive)
    } else if !is_derived(info_key, investment_seeds(investment_id, version), program_id) {
        Err(ErrorCode::InvalidInvestmentInfoPda)
    } else if !is_derived(vault_key, vault_seeds(investment_id, version), program_id) {
        Err(ErrorCode::InvalidInvestmentInfoPda)
    } else if vault_usdt_account.mint != usdt_mint {
        Err(ErrorCode::InvalidTokenMint)
    } else if vault_usdt_account.owner != vault_key {
        Err(ErrorCode::InvalidVaultOwner)
    } else if vault_hcoin_account.mint != hcoin_mint {
        Err(ErrorCode::InvalidTokenMint)
    } else if vault_hcoin_account.owner != vault_key {
        Err(ErrorCode::InvalidVaultOwner)
    } else {
        match schedule_error(stage_ratio) {
            Some(e) => Err(e),
            None => Ok(()),
        }
    }
}

/// Creates the configuration of an investment: pending and active, with the
/// terms given, created at `now`. Both quorum lists must have five members,
/// the configuration and the vault must stand at their derived addresses,
/// the vault's two token accounts must hold the two assets for the vault,
/// and the schedule must be an accepted one.
pub fn initialize_investment_info(
    program_id: &Key,
    info_key: &Key,
    vault_key: &Key,
    usdt_mint: &Key,
    hcoin_mint: &Key,
    vault_usdt_account: &TokenAccount,
    vault_hcoin_account: &TokenAccount,
    investment_id: [u8; 15],
    version: [u8; 4],
    investment_type: InvestmentType,
    stage_ratio: StageRatio,
    start_at: i64,
    end_at: i64,
    investment_upper_limit: u64,
    execute_whitelist: Vec<Key>,
    update_whitelist: Vec<Key>,
    withdraw_whitelist: Vec<Key>,
    now: i64,
) -> (outcome: Result<InvestmentInfo, ErrorCode>)
    ensures
        match outcome {
            Ok(info) => {
                &&& initialize_check(
                    *program_id,
                    *info_key,
                    *vault_key,
                    *usdt_mint,
                    *hcoin_mint,
                    *vault_usdt_account,
                    *vault_hcoin_account,
                    investment_id,
                    version,
                    stage_ratio,
                    execute_whitelist@,
                    update_whitelist@,
                ) is Ok
                &&& info@ == (InvestmentInfoView {
                    investment_id,
                    version,
                    investment_type,
                    stage_ratio,
                    start_at,
                    end_at,
                    investment_upper_limit,
                    execute_whitelist: execute_whitelist@,
                    update_whitelist: update_whitelist@,
                    withdraw_whitelist: withdraw_whitelist@,
                    vault: *vault_key,
                    state: InvestmentState::Pending,
                    is_active: true,
                    created_at: now,
                })
                &&& info.wf()
            },
            Err(e) => initialize_check(
                *program_id,
                *info_key,
                *vault_key,
                *usdt_mint,
                *hcoin_mint,
                *vault_usdt_account,
                *vault_hcoin_account,
                investment_id,
                version,
                stage_ratio,
                execute_whitelist@,
                update_whitelist@,
            ) == Err::<(), ErrorCode>(e),
        },
{
    if execute_whitelist.len() != MAX_WHITELIST_LEN {
        return Err(ErrorCode::WhitelistMustBeFive);
    }
    if update_whitelist.len() != MAX_WHITELIST_LEN {
        return Err(ErrorCode::WhitelistMustBeFive);
    }
    if !is_investment_address(info_key, &investment_id, &version, program_id) {
        return Err(ErrorCode::InvalidInvestmentInfoPda);
    }
    if !is_vault_address(vault_key, &investment_id, &version, program_id) {
        return Err(ErrorCode::InvalidInvestmentInfoPda);
    }
    if !bytes_equal(&vault_usdt_account.mint, usdt_mint) {
        return Err(ErrorCode::InvalidTokenMint);
    }
    if !bytes_equal(&vault_usdt_account.owner, vault_key) {
        return Err(ErrorCode::InvalidVaultOwner);
    }
    if !bytes_equal(&vault_hcoin_account.mint, hcoin_mint) {
        return Err(ErrorCode::InvalidTokenMint);
    }
    if !bytes_equal(&vault_hcoin_account.owner, vault_key) {
        return Err(ErrorCode::InvalidVaultOwner);
    }
    match validate_schedule(&stage_ratio) {
        Ok(_) => {},
        Err(e) => {
            return Err(e);
        },
    }
    Ok(
        InvestmentInfo {
            investment_id,
            version,
            investment_type,
            stage_ratio,
            start_at,
            end_at,
            investment_upper_limit,
            execute_whitelist,
            update_whitelist,
            withdraw_whitelist,
            vault: *vault_key,
            state: InvestmentState::Pending,
            is_active: true,
            created_at: now,
        },
    )
}

/// The outcome of the checks made before a configuration's terms are changed.
pub open spec fn update_check(
    info: InvestmentInfoView,
    signers: Seq<Key>,
    new_stage_ratio: Option<StageRatio>,
) -> Result<(), ErrorCode> {
    if !info.is_active {
        Err(ErrorCode::InvestmentInfoDeactivated)
    } else if signer_check(signers, info.update_whitelist) is Err {
        signer_check(signers, info.update_whitelist)
    } else {
        match new_stage_ratio {
            Some(ratio) => match schedule_error(ratio) {
                Some(e) => Err(e),
                None => Ok(()),
            },
            None => Ok(()),
        }
    }
}

/// Replaces the upper limit, the schedule, or both, of an active
/// configuration, by a quorum of the update list. A schedule that is not
/// accepted fails the whole call.
pub fn update_investment_info(
    info: &mut InvestmentInfo,
    signers: &[Key],
    new_stage_ratio: Option<StageRatio>,
    new_upper_limit: Option<u64>,
) -> (outcome: Result<(), ErrorCode>)
    ensures
        outcome == update_check(old(info)@, signers@, new_stage_ratio),
        outcome is Ok ==> final(info)@ == (InvestmentInfoView {
            stage_ratio: match new_stage_ratio {
                Some(ratio) => ratio,
                None => old(info).stage_ratio,
            },
            investment_upper_limit: match new_upper_limit {
                Some(limit) => limit,
                None => old(info).investment_upper_limit,
            },
            ..old(info)@
        }),
        outcome is Err ==> final(info)@ == old(info)@,
        lifecycle_step(old(info)@, final(info)@),
        old(info).wf() ==> final(info).wf(),
{
    if !info.is_active {
        return Err(ErrorCode::InvestmentInfoDeactivated);
    }
    match info.verify_signers_3_of_5(signers, true) {
        Ok(_) => {},
        Err(e) => {
            return Err(e);
        },
    }
    if let Some(ratio) = new_stage_ratio {
        match validate_schedule(&ratio) {
            Ok(_) => {},
            Err(e) => {
                return Err(e);
            },
        }
    }
    if let Some(limit) = new_upper_limit {
        info.investment_upper_limit = limit;
    }
    if let Some(ratio) = new_stage_ratio {
        info.stage_ratio = ratio;
    }
    Ok(())
}

/// The outcome of the checks made before a configuration is completed.
pub open spec fn complete_check(
    info: InvestmentInfoView,
    program_id: Key,
    info_key: Key,
    signers: Seq<Key>,
) -> Result<(), ErrorCode> {
    if !info.is_active {
        Err(ErrorCode::InvestmentInfoDeactivated)
    } else if info.state == InvestmentState::Completed {
        Err(ErrorCode::InvestmentInfoHasCompleted)
    } else if !investment_matches(info, info_key, program_id) {
        Err(ErrorCode::InvalidInvestmentInfoPda)
    } else {
        signer_check(signers, info.update_whitelist)
    }
}

/// Moves an active configuration that is not yet completed to the completed
/// state, by a quorum of the update list.
pub fn completed_investment_info(
    info: &mut InvestmentInfo,
    program_id: &Key,
    info_key: &Key,
    signers: &[Key],
) -> (outcome: Result<(), ErrorCode>)
    ensures
        outcome == complete_check(old(info)@, *program_id, *info_key, signers@),
        outcome is Ok ==> final(info)@ == (InvestmentInfoView {
            state: InvestmentState::Completed,
            ..old(info)@
        }),
        outcome is Err ==> final(info)@ == old(info)@,
        lifecycle_step(old(info)@, final(info)@),
        old(info).wf() ==> final(info).wf(),
{
    if !info.is_active {
        return Err(ErrorCode::InvestmentInfoDeactivated);
    }
    match info.state {
        InvestmentState::Completed => {
            return Err(ErrorCode::InvestmentInfoHasCompleted);
        },
        _ => {},
    }
    if !is_investment_address(info_key, &info.investment_id, &info.version, program_id) {
        return Err(ErrorCode::InvalidInvestmentInfoPda);
    }
    match info.verify_signers_3_of_5(signers, true) {
        Ok(_) => {},
        Err(e) => {
            return Err(e);
        },
    }
    info.state = InvestmentState::Completed;
    Ok(())
}

/// The outcome of the checks made before a configuration is deactivated.
pub open spec fn deactivate_check(
    info: InvestmentInfoView,
    program_id: Key,
    info_key: Key,
    signers: Seq<Key>,
) -> Result<(), ErrorCode> {
    if distribution_gate(info) is Err {
        distribution_gate(info)
    } else if !investment_matches(info, info_key, program_id) {
        Err(ErrorCode::InvalidInvestmentInfoPda)
    } else {
        signer_check(signers, info.update_whitelist)
    }
}

/// Deactivates an active, completed configuration for good, by a quorum of
/// the update list.
pub fn deactivate_investment_info(
    info: &mut InvestmentInfo,
    program_id: &Key,
    info_key: &Key,
    signers: &[Key],
) -> (outcome: Result<(), ErrorCode>)
    ensures
        outcome == deactivate_check(old(info)@, *program_id, *info_key, signers@),
        outcome is Ok ==> final(info)@ == (InvestmentInfoView { is_active: false, ..old(info)@ }),
        outcome is Err ==> final(info)@ == old(info)@,
        lifecycle_step(old(info)@, final(info)@),
        old(info).wf() ==> final(info).wf(),
{
    match check_distribution_gate(info) {
        Ok(_) => {},
        Err(e) => {
            return Err(e);
        },
    }
    if !is_investment_address(info_key, &info.investment_id, &info.version, program_id) {
        return Err(ErrorCode::InvalidInvestmentInfoPda);
    }
    match info.verify_signers_3_of_5(signers, true) {
        Ok(_) => {},
        Err(e) => {
            return Err(e);
        },
    }
    info.is_active = false;
    Ok(())
}

/// The outcome of the checks on a replacement of `from` by `to` in `list`.
pub open spec fn replacement_check(list: Seq<Key>, from: Key, to: Key) -> Result<(), ErrorCode> {
    if from == to {
        Err(ErrorCode::WhitelistAddressExists)
    } else if !list.contains(from) {
        Err(ErrorCode::WhitelistAddressNotFound)
    } else if list.contains(to) {
        Err(ErrorCode::WhitelistAddressExists)
    } else {
        Ok(())
    }
}

/// Replaces the first occurrence of `from` in `list` by `to`, where `from`
/// is a member, `to` is not, and the two differ.
pub fn replace_member(list: &mut Vec<Key>, from: &Key, to: &Key) -> (outcome: Result<
    (),
    ErrorCode,
>)
    ensures
        outcome == replacement_check(old(list)@, *from, *to),
        outcome is Ok ==> final(list)@ == replaced_first(old(list)@, *from, *to),
        outcome is Err ==> final(list)@ == old(list)@,
        final(list)@.len() == old(list)@.len(),
{
    if bytes_equal(from, to) {
        return Err(ErrorCode::WhitelistAddressExists);
    }
    let place = position_of(list.as_slice(), from);
    match place {
        None => Err(ErrorCode::WhitelistAddressNotFound),
        Some(index) => {
            if list_contains(list.as_slice(), to) {
                return Err(ErrorCode::WhitelistAddressExists);
            }
            proof {
                lemma_first_position(list@, *from, index as int);
            }
            list[index] = *to;
            Ok(())
        },
    }
}

/// The outcome of the checks made before a member of the execute list is
/// replaced.
pub open spec fn patch_execute_check(
    info: InvestmentInfoView,
    program_id: Key,
    info_key: Key,
    signers: Seq<Key>,
    from: Key,
    to: Key,
) -> Result<(), ErrorCode> {
    if !info.is_active {
        Err(ErrorCode::InvestmentInfoDeactivated)
    } else if !investment_matches(info, info_key, program_id) {
        Err(ErrorCode::InvalidInvestmentInfoPda)
    } else if signer_check(signers, info.execute_whitelist) is Err {
        signer_check(signers, info.execute_whitelist)
    } else {
        replacement_check(info.execute_whitelist, from, to)
    }
}

/// Replaces one member of the execute list, by a quorum of that same list.
pub fn patch_execute_whitelist(
    info: &mut InvestmentInfo,
    program_id: &Key,
    info_key: &Key,
    signers: &[Key],
    from: &Key,
    to: &Key,
) -> (outcome: Result<(), ErrorCode>)
    ensures
        outcome == patch_execute_check(old(info)@, *program_id, *info_key, signers@, *from, *to),
        outcome is Ok ==> final(info)@ == (InvestmentInfoView {
            execute_whitelist: replaced_first(old(info).execute_whitelist@, *from, *to),
            ..old(info)@
        }),
        outcome is Err ==> final(info)@ == old(info)@,
        lifecycle_step(old(info)@, final(info)@),
        old(info).wf() ==> final(info).wf(),
{
    if !info.is_active {
        return Err(ErrorCode::InvestmentInfoDeactivated);
    }
    if !is_investment_address(info_key, &info.investment_id, &info.version, program_id) {
        return Err(ErrorCode::InvalidInvestmentInfoPda);
    }
    match info.verify_signers_3_of_5(signers, false) {
        Ok(_) => {},
        Err(e) => {
            return Err(e);
        },
    }
    replace_member(&mut info.execute_whitelist, from, to)
}

/// The outcome of the checks made before a member of the update list is
/// replaced.
pub open spec fn patch_update_check(
    info: InvestmentInfoView,
    signers: Seq<Key>,
    from: Key,
    to: Key,
) -> Result<(), ErrorCode> {
    if !info.is_active {
        Err(ErrorCode::InvestmentInfoDeactivated)
    } else if signer_check(signers, info.update_whitelist) is Err {
        signer_check(signers, info.update_whitelist)
    } else {
        replacement_check(info.update_whitelist, from, to)
    }
}

/// Replaces one member of the update list, by a quorum of that same list.
pub fn patch_update_whitelist(
    info: &mut InvestmentInfo,
    signers: &[Key],
    from: &Key,
    to: &Key,
) -> (outcome: Result<(), ErrorCode>)
    ensures
        outcome == patch_update_check(old(info)@, signers@, *from, *to),
        outcome is Ok ==> final(info)@ == (InvestmentInfoView {
            update_whitelist: replaced_first(old(info).update_whitelist@, *from, *to),
            ..old(info)@
        }),
        outcome is Err ==> final(info)@ == old(info)@,
        lifecycle_step(old(info)@, final(info)@),
        old(info).wf() ==> final(info).wf(),
{
    if !info.is_active {
        return Err(ErrorCode::InvestmentInfoDeactivated);
    }
    match info.verify_signers_3_of_5(signers, true) {
        Ok(_) => {},
        Err(e) => {
            return Err(e);
        },
    }
    replace_member(&mut info.update_whitelist, from, to)
}

/// The outcome of the checks made before the withdraw list is replaced.
pub open spec fn patch_withdraw_check(
    info: InvestmentInfoView,
    program_id: Key,
    info_key: Key,
    signers: Seq<Key>,
    new_wallets: Seq<Key>,
) -> Result<(), ErrorCode> {
    if !info.is_active {
        Err(ErrorCode::InvestmentInfoDeactivated)
    } else if !investment_matches(info, info_key, program_id) {
        Err(ErrorCode::InvalidInvestmentInfoPda)
    } else if signer_check(signers, info.execute_whitelist) is Err {
        signer_check(signers, info.execute_whitelist)
    } else if new_wallets.len() < 1 || new_wallets.len() > MAX_WHITELIST_LEN {
        Err(ErrorCode::WhitelistLengthInvalid)
    } else {
        Ok(())
    }
}

/// Replaces the whole withdraw list by one of one to five wallets, by a
/// quorum of the execute list.
pub fn patch_withdraw_whitelist(
    info: &mut InvestmentInfo,
    program_id: &Key,
    info_key: &Key,
    signers: &[Key],
    new_wallets: Vec<Key>,
) -> (outcome: Result<(), ErrorCode>)
    ensures
        outcome == patch_withdraw_check(
            old(info)@,
            *program_id,
            *info_key,
            signers@,
            new_wallets@,
        ),
        outcome is Ok ==> final(info)@ == (InvestmentInfoView {
            withdraw_whitelist: new_wallets@,
            ..old(info)@
        }),
        outcome is Err ==> final(info)@ == old(info)@,
        lifecycle_step(old(info)@, final(info)@),
        old(info).wf() ==> final(info).wf(),
{
    if !info.is_active {
        return Err(ErrorCode::InvestmentInfoDeactivated);
    }
    if !is_investment_address(info_key, &info.investment_id, &info.version, program_id) {
        return Err(ErrorCode::InvalidInvestmentInfoPda);
    }
    match info.verify_signers_3_of_5(signers, false) {
        Ok(_) => {},
        Err(e) => {
            return Err(e);
        },
    }
    if new_wallets.len() < 1 || new_wallets.len() > MAX_WHITELIST_LEN {
        return Err(ErrorCode::WhitelistLengthInvalid);
    }
    info.withdraw_whitelist = new_wallets;
    Ok(())
}

} // verus!
