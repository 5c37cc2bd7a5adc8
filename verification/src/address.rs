//! Derived addresses: every stored entity lives at the address that the
//! program derives from a tag and the entity's identity.

use vstd::prelude::*;
use vstd::bytes::{spec_u16_to_le_bytes, spec_u64_to_le_bytes, u16_to_le_bytes, u64_to_le_bytes};
use anchor_lang::prelude::Pubkey;
use crate::constants::{ASSOCIATED_TOKEN_PROGRAM_ID, TOKEN_PROGRAM_ID};
use crate::keys::{bytes_equal, copy_bytes, lemma_equal_contents, Key};

verus! {

/// Tag of an investment's configuration: `investment`.
pub const INVESTMENT_SEED: [u8; 10] = [105, 110, 118, 101, 115, 116, 109, 101, 110, 116];

/// Tag of an investment's vault: `vault`.
pub const VAULT_SEED: [u8; 5] = [118, 97, 117, 108, 116];

/// Tag of a contribution record: `record`.
pub const RECORD_SEED: [u8; 6] = [114, 101, 99, 111, 114, 100];

/// Tag of a profit cache: `profit_cache`.
pub const PROFIT_CACHE_SEED: [u8; 12] = [112, 114, 111, 102, 105, 116, 95, 99, 97, 99, 104, 101];

/// Tag of a refund cache: `refund_cache`.
pub const REFUND_CACHE_SEED: [u8; 12] = [114, 101, 102, 117, 110, 100, 95, 99, 97, 99, 104, 101];

/// The address that the program `program_id` derives from `seeds`, where one
/// exists. It depends on nothing but the two arguments.
pub uninterp spec fn program_address(seeds: Seq<Seq<u8>>, program_id: Seq<u8>) -> Option<Seq<u8>>;

/// The contents of each seed.
pub open spec fn seed_bytes(seeds: Seq<Vec<u8>>) -> Seq<Seq<u8>> {
    Seq::new(seeds.len(), |i: int| seeds[i]@)
}

/// The contents of an address that may be missing.
pub open spec fn address_bytes(address: Option<Key>) -> Option<Seq<u8>> {
    match address {
        Some(key) => Some(key@),
        None => None,
    }
}

/// Whether `key` is the address derived from `seeds` under `program_id`.
pub open spec fn is_derived(key: Key, seeds: Seq<Seq<u8>>, program_id: Key) -> bool {
    program_address(seeds, program_id@) == Some(key@)
}

/// Calls `Pubkey::try_find_program_address` of solana-pubkey, which hashes
/// the seeds, a bump seed counted down from 255 and the program id until the
/// hash is no point of the curve, and gives `None` where no bump seed serves
/// or the seeds are more or longer than it accepts. It does not panic. The
/// contract claims only that what it gives is a function of the seeds'
/// contents and the program id; nothing here says which address that is.
#[verifier::external_body]
fn try_find_program_address(seeds: &Vec<Vec<u8>>, program_id: &Key) -> (address: Option<Key>)
    ensures
        address_bytes(address) == program_address(seed_bytes(seeds@), program_id@),
{
    let parts: Vec<&[u8]> = seeds.iter().map(|seed| seed.as_slice()).collect();
    Pubkey::try_find_program_address(&parts, &Pubkey::new_from_array(*program_id))
        .map(|found| found.0.to_bytes())
}

/// Seeds of an investment's configuration.
pub open spec fn investment_seeds(investment_id: [u8; 15], version: [u8; 4]) -> Seq<Seq<u8>> {
    seq![INVESTMENT_SEED@, investment_id@, version@]
}

/// Seeds of an investment's vault.
pub open spec fn vault_seeds(investment_id: [u8; 15], version: [u8; 4]) -> Seq<Seq<u8>> {
    seq![VAULT_SEED@, investment_id@, version@]
}

/// Seeds of a contribution record.
pub open spec fn record_seeds(
    investment_id: [u8; 15],
    version: [u8; 4],
    batch_id: u16,
    record_id: u64,
    account_id: [u8; 15],
) -> Seq<Seq<u8>> {
    seq![
        RECORD_SEED@,
        investment_id@,
        version@,
        spec_u16_to_le_bytes(batch_id),
        spec_u64_to_le_bytes(record_id),
        account_id@,
    ]
}

/// Seeds of a batch's profit cache.
pub open spec fn profit_cache_seeds(
    investment_id: [u8; 15],
    version: [u8; 4],
    batch_id: u16,
) -> Seq<Seq<u8>> {
    seq![PROFIT_CACHE_SEED@, investment_id@, version@, spec_u16_to_le_bytes(batch_id)]
}

/// Seeds of a batch's refund cache for one year.
pub open spec fn refund_cache_seeds(
    investment_id: [u8; 15],
    version: [u8; 4],
    batch_id: u16,
    year_index: u8,
) -> Seq<Seq<u8>> {
    seq![
        REFUND_CACHE_SEED@,
        investment_id@,
        version@,
        spec_u16_to_le_bytes(batch_id),
        seq![year_index],
    ]
}

/// Seeds of the settlement address of `wallet` for the asset `mint`.
pub open spec fn settlement_seeds(wallet: Key, mint: Key) -> Seq<Seq<u8>> {
    seq![wallet@, TOKEN_PROGRAM_ID@, mint@]
}

/// Whether `key` is the settlement address of `wallet` for the asset `mint`.
pub open spec fn is_settlement_address(key: Key, wallet: Key, mint: Key) -> bool {
    is_derived(key, settlement_seeds(wallet, mint), ASSOCIATED_TOKEN_PROGRAM_ID)
}

/// Whether the address found is `key`.
pub fn matches_address(found: &Option<Key>, key: &Key) -> (same: bool)
    ensures
        same == (address_bytes(*found) == Some(key@)),
{
    match found {
        Some(address) => {
            proof {
                if address@ == key@ {
                    lemma_equal_contents(*address, *key);
                }
            }
            bytes_equal(address, key)
        },
        None => false,
    }
}

/// Whether `key` is the address of the configuration of the investment.
pub fn is_investment_address(
    key: &Key,
    investment_id: &[u8; 15],
    version: &[u8; 4],
    program_id: &Key,
) -> (valid: bool)
    ensures
        valid == is_derived(*key, investment_seeds(*investment_id, *version), *program_id),
{
    let mut seeds: Vec<Vec<u8>> = Vec::new();
    seeds.push(copy_bytes(&INVESTMENT_SEED));
    seeds.push(copy_bytes(investment_id));
    seeds.push(copy_bytes(version));
    assert(seed_bytes(seeds@) =~= investment_seeds(*investment_id, *version));
    let found = try_find_program_address(&seeds, program_id);
    matches_address(&found, key)
}

/// Whether `key` is the address of the vault of the investment.
pub fn is_vault_address(
    key: &Key,
    investment_id: &[u8; 15],
    version: &[u8; 4],
    program_id: &Key,
) -> (valid: bool)
    ensures
        valid == is_derived(*key, vault_seeds(*investment_id, *version), *program_id),
{
    let mut seeds: Vec<Vec<u8>> = Vec::new();
    seeds.push(copy_bytes(&VAULT_SEED));
    seeds.push(copy_bytes(investment_id));
    seeds.push(copy_bytes(version));
    assert(seed_bytes(seeds@) =~= vault_seeds(*investment_id, *version));
    let found = try_find_program_address(&seeds, program_id);
    matches_address(&found, key)
}

/// Whether `key` is the address of the record with this identity.
pub fn is_record_address(
    key: &Key,
    investment_id: &[u8; 15],
    version: &[u8; 4],
    batch_id: u16,
    record_id: u64,
    account_id: &[u8; 15],
    program_id: &Key,
) -> (valid: bool)
    ensures
        valid == is_derived(
            *key,
            record_seeds(*investment_id, *version, batch_id, record_id, *account_id),
            *program_id,
        ),
{
    let mut seeds: Vec<Vec<u8>> = Vec::new();
    seeds.push(copy_bytes(&RECORD_SEED));
    seeds.push(copy_bytes(investment_id));
    seeds.push(copy_bytes(version));
    seeds.push(u16_to_le_bytes(batch_id));
    seeds.push(u64_to_le_bytes(record_id));
    seeds.push(copy_bytes(account_id));
    assert(seed_bytes(seeds@) =~= record_seeds(
        *investment_id,
        *version,
        batch_id,
        record_id,
        *account_id,
    ));
    let found = try_find_program_address(&seeds, program_id);
    matches_address(&found, key)
}

/// Whether `key` is the address of the profit cache of the batch.
pub fn is_profit_cache_address(
    key: &Key,
    investment_id: &[u8; 15],
    version: &[u8; 4],
    batch_id: u16,
    program_id: &Key,
) -> (valid: bool)
    ensures
        valid == is_derived(
            *key,
            profit_cache_seeds(*investment_id, *version, batch_id),
            *program_id,
        ),
{
    let mut seeds: Vec<Vec<u8>> = Vec::new();
    seeds.push(copy_bytes(&PROFIT_CACHE_SEED));
    seeds.push(copy_bytes(investment_id));
    seeds.push(copy_bytes(version));
    seeds.push(u16_to_le_bytes(batch_id));
    assert(seed_bytes(seeds@) =~= profit_cache_seeds(*investment_id, *version, batch_id));
    let found = try_find_program_address(&seeds, program_id);
    matches_address(&found, key)
}

/// Whether `key` is the address of the refund cache of the batch and year.
pub fn is_refund_cache_address(
    key: &Key,
    investment_id: &[u8; 15],
    version: &[u8; 4],
    batch_id: u16,
    year_index: u8,
    program_id: &Key,
) -> (valid: bool)
    ensures
        valid == is_derived(
            *key,
            refund_cache_seeds(*investment_id, *version, batch_id, year_index),
            *program_id,
        ),
{
    let mut seeds: Vec<Vec<u8>> = Vec::new();
    seeds.push(copy_bytes(&REFUND_CACHE_SEED));
    seeds.push(copy_bytes(investment_id));
    seeds.push(copy_bytes(version));
    seeds.push(u16_to_le_bytes(batch_id));
    let mut year: Vec<u8> = Vec::new();
    year.push(year_index);
    seeds.push(year);
    assert(seeds@[4]@ =~= seq![year_index]);
    assert(seed_bytes(seeds@) =~= refund_cache_seeds(
        *investment_id,
        *version,
        batch_id,
        year_index,
    ));
    let found = try_find_program_address(&seeds, program_id);
    matches_address(&found, key)
}

/// The settlement address of `wallet` for the asset `mint`: the address that
/// the associated-token program derives from the wallet, the token program
/// and the asset.
pub fn get_associated_token_address(wallet: &Key, mint: &Key) -> (address: Option<Key>)
    ensures
        address_bytes(address) == program_address(
            settlement_seeds(*wallet, *mint),
            ASSOCIATED_TOKEN_PROGRAM_ID@,
        ),
{
    let mut seeds: Vec<Vec<u8>> = Vec::new();
    seeds.push(copy_bytes(wallet));
    seeds.push(copy_bytes(&TOKEN_PROGRAM_ID));
    seeds.push(copy_bytes(mint));
    assert(seed_bytes(seeds@) =~= settlement_seeds(*wallet, *mint));
    try_find_program_address(&seeds, &ASSOCIATED_TOKEN_PROGRAM_ID)
}

/// Whether `key` is the settlement address of `wallet` for the asset `mint`.
pub fn is_associated_token_address(key: &Key, wallet: &Key, mint: &Key) -> (valid: bool)
    ensures
        valid == is_settlement_address(*key, *wallet, *mint),
{
    let found = get_associated_token_address(wallet, mint);
    matches_address(&found, key)
}

} // verus!
