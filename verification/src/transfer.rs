//! Transfers: the library decides which transfer is due and whether its
//! accounts are fit for it; the caller carries it out.

use vstd::prelude::*;
use crate::address::{
    address_bytes, get_associated_token_address, program_address, settlement_seeds,
};
use crate::constants::{ASSOCIATED_TOKEN_PROGRAM_ID, TOKEN_PROGRAM_ID};
use crate::error::ErrorCode;
use crate::keys::{bytes_equal, lemma_equal_contents, Key};

verus! {

/// What a check reads of an account that came with a call: its address and
/// the program that owns it.
#[derive(Clone, Copy, Debug, PartialEq, Eq)]
pub struct AccountRef {
    /// Address of the account.
    pub key: Key,
    /// Program that owns the account.
    pub owner: Key,
}

/// What a check reads of an asset's mint.
#[derive(Clone, Copy, Debug, PartialEq, Eq)]
pub struct MintAccount {
    /// Identifier of the asset.
    pub key: Key,
    /// Decimal places of an amount of the asset.
    pub decimals: u8,
}

/// What a check reads of a vault.
#[derive(Clone, Copy, Debug, PartialEq, Eq)]
pub struct VaultAccount {
    /// Address of the vault.
    pub key: Key,
    /// Balance of the vault in the native gas token.
    pub lamports: u64,
}

/// A transfer of an asset that is due.
#[derive(Clone, Copy, Debug, PartialEq, Eq)]
pub struct TokenTransfer {
    /// Token account that pays.
    pub from: Key,
    /// Token account that is paid.
    pub to: Key,
    /// Asset that is moved.
    pub mint: Key,
    /// Who allows the transfer.
    pub authority: Key,
    /// Amount that is moved.
    pub amount: u64,
    /// Decimal places of the amount.
    pub decimals: u8,
    /// Whether the authority is a derived address that signs by its seeds.
    pub with_signer_seeds: bool,
}

/// A transfer of the native gas token that is due.
#[derive(Clone, Copy, Debug, PartialEq, Eq)]
pub struct SolTransfer {
    /// Account that pays.
    pub from: Key,
    /// Account that is paid.
    pub to: Key,
    /// Amount that is moved.
    pub amount: u64,
}

/// Whether an asset may be moved by `token_program` to the account `to`:
/// the program must be the token program, and must own the account.
pub open spec fn transfer_check(token_program: Key, to: AccountRef) -> Result<(), ErrorCode> {
    if token_program != TOKEN_PROGRAM_ID {
        Err(ErrorCode::InvalidTokenProgramID)
    } else if to.owner != TOKEN_PROGRAM_ID {
        Err(ErrorCode::InvalidRecipientATA)
    } else {
        Ok(())
    }
}

/// Checks the accounts of a transfer of an asset and states the transfer.
pub fn transfer_token_checked(
    token_program: &Key,
    from: &Key,
    to: &AccountRef,
    mint: &Key,
    authority: &Key,
    with_signer_seeds: bool,
    amount: u64,
    decimals: u8,
) -> (outcome: Result<TokenTransfer, ErrorCode>)
    ensures
        match outcome {
            Ok(transfer) => {
                &&& transfer_check(*token_program, *to) is Ok
                &&& transfer == (TokenTransfer {
                    from: *from,
                    to: to.key,
                    mint: *mint,
                    authority: *authority,
                    amount,
                    decimals,
                    with_signer_seeds,
                })
            },
            Err(e) => transfer_check(*token_program, *to) == Err::<(), ErrorCode>(e),
        },
{
    if !bytes_equal(token_program, &TOKEN_PROGRAM_ID) {
        return Err(ErrorCode::InvalidTokenProgramID);
    }
    if !bytes_equal(&to.owner, &TOKEN_PROGRAM_ID) {
        return Err(ErrorCode::InvalidRecipientATA);
    }
    Ok(
        TokenTransfer {
            from: *from,
            to: to.key,
            mint: *mint,
            authority: *authority,
            amount,
            decimals,
            with_signer_seeds,
        },
    )
}

/// The first of the accounts that stands at the address `target`; none
/// where there is no address.
pub open spec fn first_at(accounts: Seq<AccountRef>, target: Option<Seq<u8>>) -> Option<AccountRef>
    decreases accounts.len(),
{
    if accounts.len() == 0 {
        None
    } else if target == Some(accounts[0].key@) {
        Some(accounts[0])
    } else {
        first_at(accounts.drop_first(), target)
    }
}

/// The first of the accounts that is the settlement address of `wallet` for
/// the asset `mint`.
pub open spec fn first_settlement(accounts: Seq<AccountRef>, wallet: Key, mint: Key) -> Option<
    AccountRef,
> {
    first_at(
        accounts,
        program_address(settlement_seeds(wallet, mint), ASSOCIATED_TOKEN_PROGRAM_ID@),
    )
}

/// The first account at an address is the one before which no account
/// stands at it.
proof fn lemma_first_at(accounts: Seq<AccountRef>, target: Option<Seq<u8>>, place: int)
    requires
        0 <= place <= accounts.len(),
        forall|j: int| 0 <= j < place ==> target != Some((#[trigger] accounts[j]).key@),
        place < accounts.len() ==> target == Some(accounts[place].key@),
    ensures
        first_at(accounts, target) == if place < accounts.len() {
            Some(accounts[place])
        } else {
            None
        },
    decreases accounts.len(),
{
    if accounts.len() > 0 && place > 0 {
        let rest = accounts.drop_first();
        assert(target != Some(accounts[0].key@));
        assert forall|j: int| 0 <= j < place - 1 implies target != Some(
            (#[trigger] rest[j]).key@,
        ) by {
            assert(rest[j] == accounts[j + 1]);
        }
        lemma_first_at(rest, target, place - 1);
    }
}

/// Looks among the accounts for the first that stands at the address
/// `target`.
pub fn find_account(accounts: &[AccountRef], target: &Option<Key>) -> (found: Option<AccountRef>)
    ensures
        found == first_at(accounts@, address_bytes(*target)),
{
    match target {
        None => {
            proof {
                lemma_first_at(accounts@, None, accounts@.len() as int);
            }
            None
        },
        Some(address) => {
            let mut i: usize = 0;
            while i < accounts.len()
                invariant
                    i <= accounts@.len(),
                    *target == Some(*address),
                    forall|j: int|
                        0 <= j < i ==> Some(address@) != Some((#[trigger] accounts@[j]).key@),
                decreases accounts@.len() - i,
            {
                proof {
                    if accounts@[i as int].key@ == address@ {
                        lemma_equal_contents(accounts@[i as int].key, *address);
                    }
                }
                if bytes_equal(&accounts[i].key, address) {
                    proof {
                        lemma_first_at(accounts@, Some(address@), i as int);
                    }
                    return Some(accounts[i]);
                }
                i += 1;
            }
            proof {
                lemma_first_at(accounts@, Some(address@), accounts@.len() as int);
            }
            None
        },
    }
}

/// Looks among the accounts for the settlement address of `wallet` for the
/// asset `mint`.
pub fn find_settlement_account(accounts: &[AccountRef], wallet: &Key, mint: &Key) -> (found: Option<
    AccountRef,
>)
    ensures
        found == first_settlement(accounts@, *wallet, *mint),
{
    let target = get_associated_token_address(wallet, mint);
    find_account(accounts, &target)
}

} // verus!
