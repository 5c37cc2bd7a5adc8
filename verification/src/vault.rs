//! Vault custody: what may be paid into the vault of an investment and what
//! a withdrawal takes out of it.

use vstd::prelude::*;
use crate::address::{is_associated_token_address, is_settlement_address};
use crate::authorization::signer_check;
use crate::constants::{
    get_hcoin_mint, get_usdt_mint, hcoin_mint, usdt_mint, Network, ESTIMATE_SOL_BASE,
    ESTIMATE_SOL_PER_ENTRY,
};
use crate::error::ErrorCode;
use crate::execute::{is_investment_vault, vault_matches};
use crate::keys::{bytes_equal, list_contains, Key};
use crate::lifecycle::{check_distribution_gate, distribution_gate};
use crate::state::{InvestmentInfo, InvestmentInfoView, TokenAccount};
use crate::transfer::{
    transfer_check, transfer_token_checked, AccountRef, MintAccount, SolTransfer, TokenTransfer,
    VaultAccount,
};

verus! {

/// The outcome of the checks made before anything is paid into a vault.
pub open spec fn deposit_gate(info: InvestmentInfoView, program_id: Key, vault_key: Key) -> Result<
    (),
    ErrorCode,
> {
    if distribution_gate(info) is Err {
        distribution_gate(info)
    } else if !vault_matches(info, vault_key, program_id) {
        Err(ErrorCode::InvalidVaultPda)
    } else {
        Ok(())
    }
}

/// States the transfer that pays `amount` of the native gas token from
/// `payer` into the vault of an active, completed investment. Anyone may
/// pay in.
pub fn deposit_sol_to_vault(
    info: &InvestmentInfo,
    program_id: &Key,
    vault_key: &Key,
    payer: &Key,
    amount: u64,
) -> (outcome: Result<SolTransfer, ErrorCode>)
    ensures
        match outcome {
            Ok(transfer) => deposit_gate(info@, *program_id, *vault_key) is Ok && transfer == (
            SolTransfer { from: *payer, to: *vault_key, amount }),
            Err(e) => deposit_gate(info@, *program_id, *vault_key) == Err::<(), ErrorCode>(e),
        },
{
    match check_distribution_gate(info) {
        Ok(_) => {},
        Err(e) => {
            return Err(e);
        },
    }
    if !is_investment_vault(info, vault_key, program_id) {
        return Err(ErrorCode::InvalidVaultPda);
    }
    Ok(SolTransfer { from: *payer, to: *vault_key, amount })
}

/// The outcome of the checks made before an asset is paid into a vault.
pub open spec fn token_deposit_check(
    info: InvestmentInfoView,
    program_id: Key,
    vault_key: Key,
    mint: Key,
    from: TokenAccount,
    payer: Key,
    vault_token_account: AccountRef,
    token_program: Key,
    network: Network,
) -> Result<(), ErrorCode> {
    if deposit_gate(info, program_id, vault_key) is Err {
        deposit_gate(info, program_id, vault_key)
    } else if mint != usdt_mint(network) && mint != hcoin_mint(network) {
        Err(ErrorCode::InvalidTokenMint)
    } else if !is_settlement_address(vault_token_account.key, vault_key, mint) {
        Err(ErrorCode::InvalidVaultAta)
    } else if from.owner != payer {
        Err(ErrorCode::InvalidFromOwner)
    } else {
        transfer_check(token_program, vault_token_account)
    }
}

/// States the transfer that pays `amount` of one of the two assets from the
/// payer's token account into the vault of an active, completed investment.
/// The vault's token account must be the vault's settlement address for the
/// asset, and the paying account the payer's own.
pub fn deposit_token_to_vault(
    info: &InvestmentInfo,
    program_id: &Key,
    vault_key: &Key,
    mint: &MintAccount,
    from: &TokenAccount,
    payer: &Key,
    vault_token_account: &AccountRef,
    token_program: &Key,
    amount: u64,
    network: Network,
) -> (outcome: Result<TokenTransfer, ErrorCode>)
    ensures
        match outcome {
            Ok(transfer) => {
                &&& token_deposit_check(
                    info@,
                    *program_id,
                    *vault_key,
                    mint.key,
                    *from,
                    *payer,
                    *vault_token_account,
                    *token_program,
                    network,
                ) is Ok
                &&& transfer == (TokenTransfer {
                    from: from.key,
                    to: vault_token_account.key,
                    mint: mint.key,
                    authority: *payer,
                    amount,
                    decimals: mint.decimals,
                    with_signer_seeds: false,
                })
            },
            Err(e) => token_deposit_check(
                info@,
                *program_id,
                *vault_key,
                mint.key,
                *from,
                *payer,
                *vault_token_account,
                *token_program,
                network,
            ) == Err::<(), ErrorCode>(e),
        },
{
    match check_distribution_gate(info) {
        Ok(_) => {},
        Err(e) => {
            return Err(e);
        },
    }
    if !is_investment_vault(info, vault_key, program_id) {
        return Err(ErrorCode::InvalidVaultPda);
    }
    if !bytes_equal(&mint.key, &get_usdt_mint(network)) && !bytes_equal(
        &mint.key,
        &get_hcoin_mint(network),
    ) {
        return Err(ErrorCode::InvalidTokenMint);
    }
    if !is_associated_token_address(&vault_token_account.key, vault_key, &mint.key) {
        return Err(ErrorCode::InvalidVaultAta);
    }
    if !bytes_equal(&from.owner, payer) {
        return Err(ErrorCode::InvalidFromOwner);
    }
    transfer_token_checked(
        token_program,
        &from.key,
        vault_token_account,
        &mint.key,
        payer,
        false,
        amount,
        mint.decimals,
    )
}

/// What a withdrawal takes of the native balance: what is left of it above
/// the rent floor, the base gas reserve and one entry's gas reserve; never
/// less than nothing.
pub open spec fn withdrawable_lamports(balance: u64, rent_floor: u64) -> int {
    if balance - rent_floor - ESTIMATE_SOL_BASE - ESTIMATE_SOL_PER_ENTRY > 0 {
        balance - rent_floor - ESTIMATE_SOL_BASE - ESTIMATE_SOL_PER_ENTRY
    } else {
        0
    }
}

/// What a withdrawal takes of the native balance.
pub fn withdrawable_sol(balance: u64, rent_floor: u64) -> (amount: u64)
    ensures
        amount == withdrawable_lamports(balance, rent_floor),
{
    balance.saturating_sub(rent_floor).saturating_sub(ESTIMATE_SOL_BASE).saturating_sub(
        ESTIMATE_SOL_PER_ENTRY,
    )
}

/// The transfers of a withdrawal.
#[derive(Clone, Copy, Debug, PartialEq, Eq)]
pub struct Withdrawal {
    /// The transfer of the vault's balance of the primary asset, if there is one.
    pub usdt: Option<TokenTransfer>,
    /// The transfer of the vault's balance of the secondary asset, if there is one.
    pub hcoin: Option<TokenTransfer>,
    /// The transfer of the withdrawable native balance, if there is one.
    pub sol: Option<SolTransfer>,
}

/// The accounts of a withdrawal.
#[derive(Clone, Copy, Debug, PartialEq, Eq)]
pub struct WithdrawalAccounts {
    /// Program that runs the call.
    pub program_id: Key,
    /// The vault that pays.
    pub vault: VaultAccount,
    /// Wallet that is paid.
    pub recipient: Key,
    /// The primary asset.
    pub usdt_mint: MintAccount,
    /// The secondary asset.
    pub hcoin_mint: MintAccount,
    /// The vault's token account of the primary asset.
    pub vault_usdt_account: TokenAccount,
    /// The vault's token account of the secondary asset.
    pub vault_hcoin_account: TokenAccount,
    /// The recipient's token account of the primary asset.
    pub recipient_usdt_account: AccountRef,
    /// The recipient's token account of the secondary asset.
    pub recipient_hcoin_account: AccountRef,
    /// Program that is to move the assets.
    pub token_program: Key,
    /// Native balance below which the vault's account is not kept.
    pub rent_floor: u64,
}

/// Whether a withdrawal moves the balance of a token account of the vault:
/// the account holds the asset, and its balance is above zero.
pub open spec fn moves_balance(account: TokenAccount, mint: Key) -> bool {
    account.mint == mint && account.amount > 0
}

/// The outcome of the checks made before a withdrawal.
pub open spec fn withdrawal_check(
    info: InvestmentInfoView,
    accounts: WithdrawalAccounts,
    signers: Seq<Key>,
) -> Result<(), ErrorCode> {
    if distribution_gate(info) is Err {
        distribution_gate(info)
    } else if signer_check(signers, info.execute_whitelist) is Err {
        signer_check(signers, info.execute_whitelist)
    } else if !vault_matches(info, accounts.vault.key, accounts.program_id) {
        Err(ErrorCode::InvalidVaultPda)
    } else if info.withdraw_whitelist.len() == 0 {
        Err(ErrorCode::EmptyWhitelist)
    } else if !info.withdraw_whitelist.contains(accounts.recipient) {
        Err(ErrorCode::UnauthorizedRecipient)
    } else if moves_balance(accounts.vault_usdt_account, accounts.usdt_mint.key) && transfer_check(
        accounts.token_program,
        accounts.recipient_usdt_account,
    ) is Err {
        transfer_check(accounts.token_program, accounts.recipient_usdt_account)
    } else if moves_balance(accounts.vault_hcoin_account, accounts.hcoin_mint.key)
        && transfer_check(accounts.token_program, accounts.recipient_hcoin_account) is Err {
        transfer_check(accounts.token_program, accounts.recipient_hcoin_account)
    } else {
        Ok(())
    }
}

/// The transfer that moves the whole balance of a token account of the
/// vault to the recipient's account, signed by the vault.
pub open spec fn balance_transfer(
    account: TokenAccount,
    to: AccountRef,
    mint: MintAccount,
    vault_key: Key,
) -> TokenTransfer {
    TokenTransfer {
        from: account.key,
        to: to.key,
        mint: mint.key,
        authority: vault_key,
        amount: account.amount,
        decimals: mint.decimals,
        with_signer_seeds: true,
    }
}

/// The transfers of a withdrawal that passes its checks.
pub open spec fn withdrawal_of(accounts: WithdrawalAccounts) -> Withdrawal {
    Withdrawal {
        usdt: if moves_balance(accounts.vault_usdt_account, accounts.usdt_mint.key) {
            Some(
                balance_transfer(
                    accounts.vault_usdt_account,
                    accounts.recipient_usdt_account,
                    accounts.usdt_mint,
                    accounts.vault.key,
                ),
            )
        } else {
            None
        },
        hcoin: if moves_balance(accounts.vault_hcoin_account, accounts.hcoin_mint.key) {
            Some(
                balance_transfer(
                    accounts.vault_hcoin_account,
                    accounts.recipient_hcoin_account,
                    accounts.hcoin_mint,
                    accounts.vault.key,
                ),
            )
        } else {
            None
        },
        sol: if withdrawable_lamports(accounts.vault.lamports, accounts.rent_floor) > 0 {
            Some(
                SolTransfer {
                    from: accounts.vault.key,
                    to: accounts.recipient,
                    amount: withdrawable_lamports(
                        accounts.vault.lamports,
                        accounts.rent_floor,
                    ) as u64,
                },
            )
        } else {
            None
        },
    }
}

/// States the transfer of the whole balance of a token account of the
/// vault, where the account holds the asset and its balance is above zero.
fn withdraw_balance(
    account: &TokenAccount,
    to: &AccountRef,
    mint: &MintAccount,
    vault_key: &Key,
    token_program: &Key,
) -> (outcome: Result<Option<TokenTransfer>, ErrorCode>)
    ensures
        match outcome {
            Ok(None) => !moves_balance(*account, mint.key),
            Ok(Some(transfer)) => {
                &&& moves_balance(*account, mint.key)
                &&& transfer_check(*token_program, *to) is Ok
                &&& transfer == balance_transfer(*account, *to, *mint, *vault_key)
            },
            Err(e) => {
                &&& moves_balance(*account, mint.key)
                &&& transfer_check(*token_program, *to) == Err::<(), ErrorCode>(e)
            },
        },
{
    if bytes_equal(&account.mint, &mint.key) && account.amount > 0 {
        match transfer_token_checked(
            token_program,
            &account.key,
            to,
            &mint.key,
            vault_key,
            true,
            account.amount,
            mint.decimals,
        ) {
            Ok(transfer) => Ok(Some(transfer)),
            Err(e) => Err(e),
        }
    } else {
        Ok(None)
    }
}

/// States the transfers that empty the vault of an active, completed
/// investment to a recipient of the withdraw list, by a quorum of the
/// execute list: the whole balance of each asset, where there is one, and
/// of the native balance what lies above the rent floor and the gas
/// reserve, where that is more than nothing.
pub fn withdraw_from_vault(
    info: &InvestmentInfo,
    accounts: &WithdrawalAccounts,
    signers: &[Key],
) -> (outcome: Result<Withdrawal, ErrorCode>)
    ensures
        match outcome {
            Ok(withdrawal) => withdrawal_check(info@, *accounts, signers@) is Ok && withdrawal
                == withdrawal_of(*accounts),
            Err(e) => withdrawal_check(info@, *accounts, signers@) == Err::<(), ErrorCode>(e),
        },
{
    match check_distribution_gate(info) {
        Ok(_) => {},
        Err(e) => {
            return Err(e);
        },
    }
    match info.verify_signers_3_of_5(signers, false) {
        Ok(_) => {},
        Err(e) => {
            return Err(e);
        },
    }
    if !is_investment_vault(info, &accounts.vault.key, &accounts.program_id) {
        return Err(ErrorCode::InvalidVaultPda);
    }
    if info.withdraw_whitelist.len() == 0 {
        return Err(ErrorCode::EmptyWhitelist);
    }
    if !list_contains(info.withdraw_whitelist.as_slice(), &accounts.recipient) {
        return Err(ErrorCode::UnauthorizedRecipient);
    }
    let usdt = match withdraw_balance(
        &accounts.vault_usdt_account,
        &accounts.recipient_usdt_account,
        &accounts.usdt_mint,
        &accounts.vault.key,
        &accounts.token_program,
    ) {
        Ok(transfer) => transfer,
        Err(e) => {
            return Err(e);
        },
    };
    let hcoin = match withdraw_balance(
        &accounts.vault_hcoin_account,
        &accounts.recipient_hcoin_account,
        &accounts.hcoin_mint,
        &accounts.vault.key,
        &accounts.token_program,
    ) {
        Ok(transfer) => transfer,
        Err(e) => {
            return Err(e);
        },
    };
    let lamports = withdrawable_sol(accounts.vault.lamports, accounts.rent_floor);
    let sol = if lamports > 0 {
        Some(SolTransfer { from: accounts.vault.key, to: accounts.recipient, amount: lamports })
    } else {
        None
    };
    Ok(Withdrawal { usdt, hcoin, sol })
}

} // verus!
