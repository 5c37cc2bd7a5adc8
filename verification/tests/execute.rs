use anchor_lang::prelude::Pubkey;
use h2coin_vault_share::constants::{
    get_hcoin_mint, get_usdt_mint, Network, SHARE_CACHE_EXPIRE_SECS, TOKEN_PROGRAM_ID,
};
use h2coin_vault_share::error::ErrorCode;
use h2coin_vault_share::execute::{
    check_profit_execution, check_refund_execution, is_cache_expired,
};
use h2coin_vault_share::instructions::{
    execute_profit_share, execute_refund_share, plan_profit_share, plan_refund_share,
    transfer_token_checked,
};
use h2coin_vault_share::keys::Key;
use h2coin_vault_share::payout::Payout;
use h2coin_vault_share::settlement::{
    payouts_of_profit, payouts_of_refund, plan_transfers, settle_transfers, ExecutionAccounts,
};
use h2coin_vault_share::state::{
    InvestmentInfo, InvestmentState, InvestmentType, ProfitEntry, ProfitShareCache, RefundEntry,
    RefundShareCache, TokenAccount,
};
use h2coin_vault_share::transfer::{
    find_account, find_settlement_account, AccountRef, MintAccount, TokenTransfer, VaultAccount,
};

const PROGRAM: Key = [77; 32];
const ID: [u8; 15] = *b"INVEST-00000001";
const VERSION: [u8; 4] = [0, 0, 0, 1];
const BATCH: u16 = 3;
const NET: Network = Network::Devnet;
const CREATED: i64 = 1_000_000;
const NOW: i64 = 1_000_500;
const VAULT_TOKENS: Key = [88; 32];

fn key(n: u8) -> Key {
    [n; 32]
}

fn derive(seeds: &[&[u8]]) -> Key {
    Pubkey::find_program_address(seeds, &Pubkey::new_from_array(PROGRAM)).0.to_bytes()
}

fn vault_key() -> Key {
    derive(&[b"vault", &ID, &VERSION])
}

fn settlement_address(wallet: Key, mint: Key) -> Key {
    anchor_spl::associated_token::get_associated_token_address(
        &Pubkey::new_from_array(wallet),
        &Pubkey::new_from_array(mint),
    )
    .to_bytes()
}

fn wallet(n: u8) -> Key {
    key(100 + n)
}

fn info() -> InvestmentInfo {
    InvestmentInfo {
        investment_id: ID,
        version: VERSION,
        investment_type: InvestmentType::Standard,
        stage_ratio: [[10; 10], [0; 10], [0; 10]],
        start_at: 0,
        end_at: 10,
        investment_upper_limit: 0,
        execute_whitelist: vec![key(1), key(2), key(3), key(4), key(5)],
        update_whitelist: vec![key(11), key(12), key(13), key(14), key(15)],
        withdraw_whitelist: vec![],
        vault: vault_key(),
        state: InvestmentState::Completed,
        is_active: true,
        created_at: 0,
    }
}

fn quorum() -> Vec<Key> {
    vec![key(5), key(1), key(3)]
}

fn profit_cache(amounts: &[u64]) -> ProfitShareCache {
    ProfitShareCache {
        batch_id: BATCH,
        investment_id: ID,
        version: VERSION,
        subtotal_profit_usdt: amounts.iter().sum(),
        subtotal_estimate_sol: 100_000 + 5_000 * amounts.len() as u64,
        executed_at: 0,
        created_at: CREATED,
        entries: amounts
            .iter()
            .enumerate()
            .map(|(n, amount)| ProfitEntry {
                account_id: [n as u8; 15],
                wallet: wallet(n as u8),
                amount_usdt: *amount,
                ratio_bp: 1,
            })
            .collect(),
    }
}

fn refund_cache(amounts: &[u64]) -> RefundShareCache {
    RefundShareCache {
        batch_id: BATCH,
        year_index: 4,
        investment_id: ID,
        version: VERSION,
        subtotal_refund_hcoin: amounts.iter().sum(),
        subtotal_estimate_sol: 100_000 + 5_000 * amounts.len() as u64,
        executed_at: 0,
        created_at: CREATED,
        entries: amounts
            .iter()
            .enumerate()
            .map(|(n, amount)| RefundEntry {
                account_id: [n as u8; 15],
                wallet: wallet(n as u8),
                amount_hcoin: *amount,
                stage: 1,
            })
            .collect(),
    }
}

fn accounts_for(mint: Key, cache_key: Key, tokens: u64, lamports: u64) -> ExecutionAccounts {
    ExecutionAccounts {
        program_id: PROGRAM,
        cache_key,
        vault: VaultAccount { key: vault_key(), lamports },
        mint: MintAccount { key: mint, decimals: 6 },
        vault_token_account: TokenAccount {
            key: VAULT_TOKENS,
            mint,
            owner: vault_key(),
            amount: tokens,
        },
        token_program: TOKEN_PROGRAM_ID,
        network: NET,
    }
}

fn profit_accounts(tokens: u64, lamports: u64) -> ExecutionAccounts {
    let cache_key = derive(&[b"profit_cache", &ID, &VERSION, &BATCH.to_le_bytes()]);
    accounts_for(get_usdt_mint(NET), cache_key, tokens, lamports)
}

fn refund_accounts(tokens: u64, lamports: u64) -> ExecutionAccounts {
    let cache_key = derive(&[b"refund_cache", &ID, &VERSION, &BATCH.to_le_bytes(), &[4]]);
    accounts_for(get_hcoin_mint(NET), cache_key, tokens, lamports)
}

fn settlement(mint: Key, wallets: &[u8]) -> Vec<AccountRef> {
    wallets
        .iter()
        .map(|n| AccountRef { key: settlement_address(wallet(*n), mint), owner: TOKEN_PROGRAM_ID })
        .collect()
}

fn transfer_to(mint: Key, n: u8, amount: u64) -> TokenTransfer {
    TokenTransfer {
        from: VAULT_TOKENS,
        to: settlement_address(wallet(n), mint),
        mint,
        authority: vault_key(),
        amount,
        decimals: 6,
        with_signer_seeds: true,
    }
}

#[allow(clippy::too_many_arguments)]
fn execute_profit(
    info: &InvestmentInfo,
    cache: &mut ProfitShareCache,
    accounts: &ExecutionAccounts,
    signers: &[Key],
    settlement: &[AccountRef],
    outcomes: &[bool],
    batch_id: u16,
    now: i64,
) -> Result<u64, ErrorCode> {
    let mut stored = Some(cache.clone());
    let outcome = execute_profit_share(
        info,
        &mut stored,
        accounts,
        signers,
        settlement,
        outcomes,
        batch_id,
        now,
    );
    *cache = stored.unwrap();
    outcome
}

#[allow(clippy::too_many_arguments)]
fn execute_refund(
    info: &InvestmentInfo,
    cache: &mut RefundShareCache,
    accounts: &ExecutionAccounts,
    signers: &[Key],
    settlement: &[AccountRef],
    outcomes: &[bool],
    batch_id: u16,
    year_index: u8,
    now: i64,
) -> Result<u64, ErrorCode> {
    let mut stored = Some(cache.clone());
    let outcome = execute_refund_share(
        info,
        &mut stored,
        accounts,
        signers,
        settlement,
        outcomes,
        batch_id,
        year_index,
        now,
    );
    *cache = stored.unwrap();
    outcome
}

fn plan_profit(
    info: &InvestmentInfo,
    cache: &ProfitShareCache,
    accounts: &ExecutionAccounts,
    signers: &[Key],
    settlement: &[AccountRef],
    batch_id: u16,
    now: i64,
) -> Result<Vec<Option<TokenTransfer>>, ErrorCode> {
    plan_profit_share(info, &Some(cache.clone()), accounts, signers, settlement, batch_id, now)
}

#[allow(clippy::too_many_arguments)]
fn plan_refund(
    info: &InvestmentInfo,
    cache: &RefundShareCache,
    accounts: &ExecutionAccounts,
    signers: &[Key],
    settlement: &[AccountRef],
    batch_id: u16,
    year_index: u8,
    now: i64,
) -> Result<Vec<Option<TokenTransfer>>, ErrorCode> {
    let stored = Some(cache.clone());
    plan_refund_share(info, &stored, accounts, signers, settlement, batch_id, year_index, now)
}

fn check_profit(
    info: &InvestmentInfo,
    cache: &ProfitShareCache,
    accounts: &ExecutionAccounts,
    signers: &[Key],
    batch_id: u16,
    now: i64,
) -> Result<(), ErrorCode> {
    check_profit_execution(info, &Some(cache.clone()), accounts, signers, batch_id, now)
}

fn check_refund(
    info: &InvestmentInfo,
    cache: &RefundShareCache,
    accounts: &ExecutionAccounts,
    signers: &[Key],
    batch_id: u16,
    year_index: u8,
    now: i64,
) -> Result<(), ErrorCode> {
    check_refund_execution(info, &Some(cache.clone()), accounts, signers, batch_id, year_index, now)
}

#[test]
fn a_plan_that_is_not_stored_is_not_executed() {
    let mint = get_usdt_mint(NET);
    let good = profit_accounts(570, 110_000);
    let recipients = settlement(mint, &[0, 1]);
    let mut missing: Option<ProfitShareCache> = None;
    assert_eq!(
        check_profit_execution(&info(), &missing, &good, &quorum(), BATCH, NOW),
        Err(ErrorCode::ProfitCacheNotFound)
    );
    assert_eq!(
        plan_profit_share(&info(), &missing, &good, &quorum(), &recipients, BATCH, NOW),
        Err(ErrorCode::ProfitCacheNotFound)
    );
    assert_eq!(
        execute_profit_share(
            &info(),
            &mut missing,
            &good,
            &quorum(),
            &recipients,
            &[true, true],
            BATCH,
            NOW
        ),
        Err(ErrorCode::ProfitCacheNotFound)
    );
    assert_eq!(missing, None);
    let mut pending = info();
    pending.state = InvestmentState::Pending;
    assert_eq!(
        check_profit_execution(&pending, &missing, &good, &quorum(), BATCH, NOW),
        Err(ErrorCode::InvestmentInfoNotCompleted)
    );
    assert_eq!(
        check_profit_execution(&info(), &missing, &good, &[], BATCH + 1, NOW),
        Err(ErrorCode::InvalidProfitCachePda)
    );
}

#[test]
fn a_refund_plan_that_is_not_stored_is_not_executed() {
    let mint = get_hcoin_mint(NET);
    let good = refund_accounts(42, 110_000);
    let recipients = settlement(mint, &[0, 1]);
    let mut missing: Option<RefundShareCache> = None;
    assert_eq!(
        check_refund_execution(&info(), &missing, &good, &quorum(), BATCH, 4, NOW),
        Err(ErrorCode::ProfitCacheNotFound)
    );
    assert_eq!(
        plan_refund_share(&info(), &missing, &good, &quorum(), &recipients, BATCH, 4, NOW),
        Err(ErrorCode::ProfitCacheNotFound)
    );
    assert_eq!(
        execute_refund_share(
            &info(),
            &mut missing,
            &good,
            &quorum(),
            &recipients,
            &[true, true],
            BATCH,
            4,
            NOW
        ),
        Err(ErrorCode::ProfitCacheNotFound)
    );
    assert_eq!(missing, None);
    assert_eq!(
        check_refund_execution(&info(), &missing, &good, &quorum(), BATCH, 5, NOW),
        Err(ErrorCode::InvalidRefundCachePda)
    );
    let mut inactive = info();
    inactive.is_active = false;
    assert_eq!(
        check_refund_execution(&inactive, &missing, &good, &quorum(), BATCH, 4, NOW),
        Err(ErrorCode::InvestmentInfoDeactivated)
    );
}

#[test]
fn a_plan_is_too_old_after_twenty_five_days() {
    assert_eq!(SHARE_CACHE_EXPIRE_SECS, 2_160_000);
    assert!(!is_cache_expired(CREATED, CREATED));
    assert!(!is_cache_expired(CREATED, CREATED + 2_160_000));
    assert!(is_cache_expired(CREATED, CREATED + 2_160_001));
    assert!(!is_cache_expired(CREATED, CREATED - 5));
    assert!(is_cache_expired(i64::MIN, i64::MAX));
    assert!(!is_cache_expired(i64::MAX, i64::MIN));
}

#[test]
fn a_transfer_goes_through_the_token_program_to_a_token_account() {
    let to = AccountRef { key: key(50), owner: TOKEN_PROGRAM_ID };
    assert_eq!(
        transfer_token_checked(&TOKEN_PROGRAM_ID, &key(40), &to, &key(60), &key(70), true, 9, 6),
        Ok(TokenTransfer {
            from: key(40),
            to: key(50),
            mint: key(60),
            authority: key(70),
            amount: 9,
            decimals: 6,
            with_signer_seeds: true,
        })
    );
    assert_eq!(
        transfer_token_checked(&key(1), &key(40), &to, &key(60), &key(70), false, 9, 6),
        Err(ErrorCode::InvalidTokenProgramID)
    );
    let stray = AccountRef { key: key(50), owner: key(2) };
    assert_eq!(
        transfer_token_checked(&TOKEN_PROGRAM_ID, &key(40), &stray, &key(60), &key(70), false, 9, 6),
        Err(ErrorCode::InvalidRecipientATA)
    );
    assert_eq!(
        transfer_token_checked(&key(1), &key(40), &stray, &key(60), &key(70), false, 9, 6),
        Err(ErrorCode::InvalidTokenProgramID)
    );
}

#[test]
fn a_settlement_address_is_found_among_the_accounts() {
    let mint = get_usdt_mint(NET);
    let mut accounts = settlement(mint, &[3, 1, 2]);
    accounts.push(AccountRef { key: settlement_address(wallet(1), mint), owner: key(9) });
    assert_eq!(find_settlement_account(&accounts, &wallet(1), &mint), Some(accounts[1]));
    assert_eq!(find_settlement_account(&accounts, &wallet(3), &mint), Some(accounts[0]));
    assert_eq!(find_settlement_account(&accounts, &wallet(4), &mint), None);
    assert_eq!(find_settlement_account(&accounts, &wallet(1), &get_hcoin_mint(NET)), None);
    assert_eq!(find_settlement_account(&[], &wallet(1), &mint), None);
}

#[test]
fn the_first_account_at_an_address_is_found() {
    let accounts = [
        AccountRef { key: key(1), owner: key(9) },
        AccountRef { key: key(2), owner: key(8) },
        AccountRef { key: key(2), owner: key(7) },
    ];
    assert_eq!(find_account(&accounts, &Some(key(2))), Some(accounts[1]));
    assert_eq!(find_account(&accounts, &Some(key(1))), Some(accounts[0]));
    assert_eq!(find_account(&accounts, &Some(key(3))), None);
    assert_eq!(find_account(&accounts, &None), None);
    assert_eq!(find_account(&[], &Some(key(1))), None);
}

#[test]
fn a_profit_plan_states_one_transfer_for_each_entry() {
    let mint = get_usdt_mint(NET);
    let cache = profit_cache(&[500, 0, 70]);
    let plan = plan_profit(
        &info(),
        &cache,
        &profit_accounts(570, 115_000),
        &quorum(),
        &settlement(mint, &[2, 1, 0]),
        BATCH,
        NOW,
    );
    assert_eq!(
        plan,
        Ok(vec![
            Some(transfer_to(mint, 0, 500)),
            Some(transfer_to(mint, 1, 0)),
            Some(transfer_to(mint, 2, 70)),
        ])
    );
}

#[test]
fn an_unfit_account_gets_no_transfer() {
    let mint = get_usdt_mint(NET);
    let cache = profit_cache(&[500, 70]);
    let mut accounts = settlement(mint, &[0, 1]);
    accounts[1].owner = key(9);
    let plan = plan_profit(
        &info(),
        &cache,
        &profit_accounts(570, 110_000),
        &quorum(),
        &accounts,
        BATCH,
        NOW,
    );
    assert_eq!(plan, Ok(vec![Some(transfer_to(mint, 0, 500)), None]));
    let mut other_program = profit_accounts(570, 110_000);
    other_program.token_program = key(9);
    let plan = plan_profit(
        &info(),
        &cache,
        &other_program,
        &quorum(),
        &settlement(mint, &[0, 1]),
        BATCH,
        NOW,
    );
    assert_eq!(plan, Ok(vec![None, None]));
}

#[test]
fn every_recipient_needs_a_settlement_address() {
    let mint = get_usdt_mint(NET);
    let mut cache = profit_cache(&[500, 70]);
    let accounts = settlement(mint, &[0]);
    let plan = plan_profit(
        &info(),
        &cache,
        &profit_accounts(570, 110_000),
        &quorum(),
        &accounts,
        BATCH,
        NOW,
    );
    assert_eq!(plan, Err(ErrorCode::MissingAssociatedTokenAccount));
    let outcome = execute_profit(
        &info(),
        &mut cache,
        &profit_accounts(570, 110_000),
        &quorum(),
        &accounts,
        &[true, true],
        BATCH,
        NOW,
    );
    assert_eq!(outcome, Err(ErrorCode::MissingAssociatedTokenAccount));
    assert_eq!(cache, profit_cache(&[500, 70]));
}

#[test]
fn a_full_payout_seals_the_plan() {
    let mint = get_usdt_mint(NET);
    let mut cache = profit_cache(&[500, 0, 70]);
    let outcome = execute_profit(
        &info(),
        &mut cache,
        &profit_accounts(570, 115_000),
        &quorum(),
        &settlement(mint, &[0, 1, 2]),
        &[true, true, true],
        BATCH,
        NOW,
    );
    assert_eq!(outcome, Ok(570));
    let mut sealed = profit_cache(&[500, 0, 70]);
    sealed.executed_at = NOW;
    assert_eq!(cache, sealed);
    let moved: u64 = cache.entries.iter().map(|entry| entry.amount_usdt).sum();
    assert_eq!(moved, cache.subtotal_profit_usdt);
}

#[test]
fn a_sealed_plan_is_not_executed_again() {
    let mint = get_usdt_mint(NET);
    let mut cache = profit_cache(&[500, 70]);
    let accounts = profit_accounts(u64::MAX, u64::MAX);
    let recipients = settlement(mint, &[0, 1]);
    let first =
        execute_profit(&info(), &mut cache, &accounts, &quorum(), &recipients, &[true, true], BATCH, NOW);
    assert_eq!(first, Ok(570));
    let sealed = cache.clone();
    let second = execute_profit(
        &info(),
        &mut cache,
        &accounts,
        &quorum(),
        &recipients,
        &[true, true],
        BATCH,
        NOW + 1,
    );
    assert_eq!(second, Err(ErrorCode::ProfitAlreadyExecuted));
    assert_eq!(cache, sealed);
    assert_eq!(
        plan_profit(&info(), &cache, &accounts, &quorum(), &recipients, BATCH, NOW + 1),
        Err(ErrorCode::ProfitAlreadyExecuted)
    );
}

#[test]
fn an_expired_plan_is_not_executed_whatever_the_vault_holds() {
    let mint = get_usdt_mint(NET);
    let mut cache = profit_cache(&[500, 70]);
    let late = CREATED + SHARE_CACHE_EXPIRE_SECS + 1;
    for (tokens, lamports) in [(570, 110_000), (u64::MAX, u64::MAX), (0, 0)] {
        let outcome = execute_profit(
            &info(),
            &mut cache,
            &profit_accounts(tokens, lamports),
            &quorum(),
            &settlement(mint, &[0, 1]),
            &[true, true],
            BATCH,
            late,
        );
        assert_eq!(outcome, Err(ErrorCode::ProfitCacheExpired));
    }
    assert_eq!(cache, profit_cache(&[500, 70]));
    let outcome = execute_profit(
        &info(),
        &mut cache,
        &profit_accounts(570, 110_000),
        &quorum(),
        &settlement(mint, &[0, 1]),
        &[true, true],
        BATCH,
        late - 1,
    );
    assert_eq!(outcome, Ok(570));
}

#[test]
fn a_failed_transfer_fails_the_execution() {
    let mint = get_usdt_mint(NET);
    let recipients = settlement(mint, &[0, 1, 2]);
    for outcomes in [
        vec![true, false, true],
        vec![false, true, true],
        vec![true, true, false],
        vec![false, false, false],
        vec![true, true],
        vec![],
    ] {
        let mut cache = profit_cache(&[500, 30, 70]);
        let outcome = execute_profit(
            &info(),
            &mut cache,
            &profit_accounts(600, 115_000),
            &quorum(),
            &recipients,
            &outcomes,
            BATCH,
            NOW,
        );
        assert_eq!(outcome, Err(ErrorCode::TotalShareMismatch));
        assert_eq!(cache, profit_cache(&[500, 30, 70]));
        assert_eq!(cache.executed_at, 0);
    }
}

#[test]
fn a_transfer_to_an_unfit_account_counts_as_failed() {
    let mint = get_usdt_mint(NET);
    let mut recipients = settlement(mint, &[0, 1]);
    recipients[0].owner = key(9);
    let mut cache = profit_cache(&[500, 70]);
    let outcome = execute_profit(
        &info(),
        &mut cache,
        &profit_accounts(570, 110_000),
        &quorum(),
        &recipients,
        &[true, true],
        BATCH,
        NOW,
    );
    assert_eq!(outcome, Err(ErrorCode::TotalShareMismatch));
    let mut other_program = profit_accounts(570, 110_000);
    other_program.token_program = key(9);
    let outcome = execute_profit(
        &info(),
        &mut cache,
        &other_program,
        &quorum(),
        &settlement(mint, &[0, 1]),
        &[true, true],
        BATCH,
        NOW,
    );
    assert_eq!(outcome, Err(ErrorCode::TotalShareMismatch));
    assert_eq!(cache, profit_cache(&[500, 70]));
}

#[test]
fn a_failed_transfer_of_nothing_fails_the_execution() {
    let mint = get_usdt_mint(NET);
    let recipients = settlement(mint, &[0, 1, 2]);
    for outcomes in [vec![true, false, true], vec![true, false, false], vec![true]] {
        let mut cache = profit_cache(&[500, 0, 70]);
        let outcome = execute_profit(
            &info(),
            &mut cache,
            &profit_accounts(570, 115_000),
            &quorum(),
            &recipients,
            &outcomes,
            BATCH,
            NOW,
        );
        assert_eq!(outcome, Err(ErrorCode::TotalShareMismatch));
        assert_eq!(cache, profit_cache(&[500, 0, 70]));
        assert_eq!(cache.executed_at, 0);
    }
    let mut unfit = recipients.clone();
    unfit[1].owner = key(9);
    let mut cache = profit_cache(&[500, 0, 70]);
    let outcome = execute_profit(
        &info(),
        &mut cache,
        &profit_accounts(570, 115_000),
        &quorum(),
        &unfit,
        &[true, true, true],
        BATCH,
        NOW,
    );
    assert_eq!(outcome, Err(ErrorCode::TotalShareMismatch));
    assert_eq!(cache, profit_cache(&[500, 0, 70]));
    let outcome = execute_profit(
        &info(),
        &mut cache,
        &profit_accounts(570, 115_000),
        &quorum(),
        &recipients,
        &[true, true, true],
        BATCH,
        NOW,
    );
    assert_eq!(outcome, Ok(570));
    assert_eq!(cache.executed_at, NOW);
}

#[test]
fn a_failed_refund_of_nothing_fails_the_execution() {
    let mint = get_hcoin_mint(NET);
    let mut cache = refund_cache(&[0, 42]);
    let outcome = execute_refund(
        &info(),
        &mut cache,
        &refund_accounts(42, 110_000),
        &quorum(),
        &settlement(mint, &[0, 1]),
        &[false, true],
        BATCH,
        4,
        NOW,
    );
    assert_eq!(outcome, Err(ErrorCode::TotalShareMismatch));
    assert_eq!(cache, refund_cache(&[0, 42]));
    let outcome = execute_refund(
        &info(),
        &mut cache,
        &refund_accounts(42, 110_000),
        &quorum(),
        &settlement(mint, &[0, 1]),
        &[true, true],
        BATCH,
        4,
        NOW,
    );
    assert_eq!(outcome, Ok(42));
    assert_eq!(cache.executed_at, NOW);
}

#[test]
fn every_success_seals_the_plan() {
    let mint = get_usdt_mint(NET);
    let mut cache = profit_cache(&[500, 0, 70]);
    let accounts = profit_accounts(570, 115_000);
    let recipients = settlement(mint, &[0, 1, 2]);
    let first =
        execute_profit(&info(), &mut cache, &accounts, &quorum(), &recipients, &[true; 3], BATCH, NOW);
    assert_eq!(first, Ok(570));
    assert_eq!(cache.executed_at, NOW);
    let second =
        execute_profit(&info(), &mut cache, &accounts, &quorum(), &recipients, &[true; 3], BATCH, NOW);
    assert_eq!(second, Err(ErrorCode::ProfitAlreadyExecuted));
}

#[test]
fn what_was_moved_must_be_the_subtotal() {
    let mint = get_usdt_mint(NET);
    let mut cache = profit_cache(&[500, 70]);
    cache.subtotal_profit_usdt = 569;
    let before = cache.clone();
    let outcome = execute_profit(
        &info(),
        &mut cache,
        &profit_accounts(570, 110_000),
        &quorum(),
        &settlement(mint, &[0, 1]),
        &[true, true],
        BATCH,
        NOW,
    );
    assert_eq!(outcome, Err(ErrorCode::TotalShareMismatch));
    assert_eq!(cache, before);
    cache.subtotal_profit_usdt = 500;
    let before = cache.clone();
    let outcome = execute_profit(
        &info(),
        &mut cache,
        &profit_accounts(570, 110_000),
        &quorum(),
        &settlement(mint, &[0, 1]),
        &[true, false],
        BATCH,
        NOW,
    );
    assert_eq!(outcome, Err(ErrorCode::TotalShareMismatch));
    assert_eq!(cache, before);
}

#[test]
fn a_sum_of_transfers_beyond_the_range_fails() {
    let mint = get_usdt_mint(NET);
    let payouts = [
        Payout { wallet: wallet(0), amount: u64::MAX },
        Payout { wallet: wallet(1), amount: 1 },
        Payout { wallet: wallet(9), amount: 1 },
    ];
    let recipients = settlement(mint, &[0, 1]);
    assert_eq!(
        settle_transfers(&payouts, &mint, &TOKEN_PROGRAM_ID, &recipients, &[true, true, true]),
        Err(ErrorCode::NumericalOverflow)
    );
    assert_eq!(
        settle_transfers(&payouts, &mint, &TOKEN_PROGRAM_ID, &recipients, &[true, false, true]),
        Err(ErrorCode::MissingAssociatedTokenAccount)
    );
    assert_eq!(
        settle_transfers(&payouts[..2], &mint, &TOKEN_PROGRAM_ID, &recipients, &[true, false]),
        Ok((u64::MAX, 1))
    );
    assert_eq!(
        settle_transfers(&payouts[..2], &mint, &TOKEN_PROGRAM_ID, &recipients, &[false, true]),
        Ok((1, 1))
    );
    assert_eq!(settle_transfers(&[], &mint, &TOKEN_PROGRAM_ID, &recipients, &[]), Ok((0, 0)));
}

#[test]
fn payouts_follow_the_entries() {
    let cache = profit_cache(&[500, 70]);
    assert_eq!(
        payouts_of_profit(&cache.entries),
        vec![Payout { wallet: wallet(0), amount: 500 }, Payout { wallet: wallet(1), amount: 70 }]
    );
    let cache = refund_cache(&[9]);
    assert_eq!(payouts_of_refund(&cache.entries), vec![Payout { wallet: wallet(0), amount: 9 }]);
    let mint = get_hcoin_mint(NET);
    let plan = plan_transfers(
        &payouts_of_refund(&cache.entries),
        &refund_accounts(9, 105_000),
        &settlement(mint, &[0]),
    );
    assert_eq!(plan, Ok(vec![Some(transfer_to(mint, 0, 9))]));
}

#[test]
fn a_profit_execution_is_checked_in_order() {
    let cache = profit_cache(&[500, 70]);
    let good = profit_accounts(570, 110_000);
    assert_eq!(check_profit(&info(), &cache, &good, &quorum(), BATCH, NOW), Ok(()));

    let mut wrong_cache = good;
    wrong_cache.cache_key = key(0);
    assert_eq!(
        check_profit(&info(), &cache, &wrong_cache, &quorum(), BATCH, NOW),
        Err(ErrorCode::InvalidProfitCachePda)
    );
    assert_eq!(
        check_profit(&info(), &cache, &good, &quorum(), BATCH + 1, NOW),
        Err(ErrorCode::InvalidProfitCachePda)
    );
    let mut wrong_vault = good;
    wrong_vault.vault.key = key(0);
    assert_eq!(
        check_profit(&info(), &cache, &wrong_vault, &quorum(), BATCH, NOW),
        Err(ErrorCode::InvalidVaultPda)
    );
    let mut renamed = info();
    renamed.vault = key(0);
    assert_eq!(
        check_profit(&renamed, &cache, &good, &quorum(), BATCH, NOW),
        Err(ErrorCode::InvalidVaultPda)
    );
    let mut inactive = info();
    inactive.is_active = false;
    assert_eq!(
        check_profit(&inactive, &cache, &good, &quorum(), BATCH, NOW),
        Err(ErrorCode::InvestmentInfoDeactivated)
    );
    let mut pending = info();
    pending.state = InvestmentState::Pending;
    assert_eq!(
        check_profit(&pending, &cache, &good, &quorum(), BATCH, NOW),
        Err(ErrorCode::InvestmentInfoNotCompleted)
    );
    let mut csr = info();
    csr.investment_type = InvestmentType::Csr;
    assert_eq!(
        check_profit(&csr, &cache, &good, &quorum(), BATCH, NOW),
        Err(ErrorCode::StandardOnly)
    );
    let mut other_batch = cache.clone();
    other_batch.batch_id = BATCH + 1;
    assert_eq!(
        check_profit(&info(), &other_batch, &good, &quorum(), BATCH, NOW),
        Err(ErrorCode::BatchIdMismatch)
    );
    let mut executed = cache.clone();
    executed.executed_at = 1;
    assert_eq!(
        check_profit(&info(), &executed, &good, &quorum(), BATCH, CREATED + 3_000_000),
        Err(ErrorCode::ProfitAlreadyExecuted)
    );
    let empty = profit_cache(&[0, 0]);
    assert_eq!(
        check_profit(&info(), &empty, &good, &quorum(), BATCH, NOW),
        Err(ErrorCode::InvalidTotalUsdt)
    );
    assert_eq!(
        check_profit(&info(), &cache, &good, &[key(1), key(2)], BATCH, NOW),
        Err(ErrorCode::UnauthorizedSigner)
    );
    assert_eq!(
        check_profit(&info(), &cache, &good, &[key(11), key(12), key(13)], BATCH, NOW),
        Err(ErrorCode::UnauthorizedSigner)
    );
    let mut other_asset = good;
    other_asset.mint.key = get_hcoin_mint(NET);
    other_asset.vault_token_account.mint = get_hcoin_mint(NET);
    assert_eq!(
        check_profit(&info(), &cache, &other_asset, &quorum(), BATCH, NOW),
        Err(ErrorCode::InvalidTokenMint)
    );
    let mut other_network = good;
    other_network.network = Network::Mainnet;
    assert_eq!(
        check_profit(&info(), &cache, &other_network, &quorum(), BATCH, NOW),
        Err(ErrorCode::InvalidTokenMint)
    );
    let mut other_account = good;
    other_account.vault_token_account.mint = get_hcoin_mint(NET);
    assert_eq!(
        check_profit(&info(), &cache, &other_account, &quorum(), BATCH, NOW),
        Err(ErrorCode::InvalidTokenMint)
    );
    assert_eq!(
        check_profit(&info(), &cache, &profit_accounts(569, 0), &quorum(), BATCH, NOW),
        Err(ErrorCode::InsufficientTokenBalance)
    );
    assert_eq!(
        check_profit(&info(), &cache, &profit_accounts(570, 109_999), &quorum(), BATCH, NOW),
        Err(ErrorCode::InsufficientSolBalance)
    );
}

#[test]
fn a_refund_plan_is_paid_out_and_sealed() {
    let mint = get_hcoin_mint(NET);
    let mut cache = refund_cache(&[40, 2]);
    let accounts = refund_accounts(42, 110_000);
    let recipients = settlement(mint, &[1, 0]);
    assert_eq!(
        plan_refund(&info(), &cache, &accounts, &quorum(), &recipients, BATCH, 4, NOW),
        Ok(vec![Some(transfer_to(mint, 0, 40)), Some(transfer_to(mint, 1, 2))])
    );
    let outcome = execute_refund(
        &info(),
        &mut cache,
        &accounts,
        &quorum(),
        &recipients,
        &[true, true],
        BATCH,
        4,
        NOW,
    );
    assert_eq!(outcome, Ok(42));
    let mut sealed = refund_cache(&[40, 2]);
    sealed.executed_at = NOW;
    assert_eq!(cache, sealed);
    let again = execute_refund(
        &info(),
        &mut cache,
        &accounts,
        &quorum(),
        &recipients,
        &[true, true],
        BATCH,
        4,
        NOW + 9,
    );
    assert_eq!(again, Err(ErrorCode::ProfitAlreadyExecuted));
    assert_eq!(cache, sealed);
}

#[test]
fn a_failed_refund_transfer_fails_the_execution() {
    let mint = get_hcoin_mint(NET);
    let mut cache = refund_cache(&[40, 2]);
    let outcome = execute_refund(
        &info(),
        &mut cache,
        &refund_accounts(42, 110_000),
        &quorum(),
        &settlement(mint, &[1, 0]),
        &[true, false],
        BATCH,
        4,
        NOW,
    );
    assert_eq!(outcome, Err(ErrorCode::TotalShareMismatch));
    assert_eq!(cache, refund_cache(&[40, 2]));
    let outcome = execute_refund(
        &info(),
        &mut cache,
        &refund_accounts(42, 110_000),
        &quorum(),
        &settlement(get_usdt_mint(NET), &[1, 0]),
        &[true, true],
        BATCH,
        4,
        NOW,
    );
    assert_eq!(outcome, Err(ErrorCode::MissingAssociatedTokenAccount));
    assert_eq!(cache, refund_cache(&[40, 2]));
}

#[test]
fn a_refund_execution_is_checked_in_order() {
    let cache = refund_cache(&[40, 2]);
    let good = refund_accounts(42, 110_000);
    assert_eq!(check_refund(&info(), &cache, &good, &quorum(), BATCH, 4, NOW), Ok(()));
    assert_eq!(
        check_refund(&info(), &cache, &good, &quorum(), BATCH, 5, NOW),
        Err(ErrorCode::InvalidRefundCachePda)
    );
    let mut other_year = cache.clone();
    other_year.year_index = 5;
    assert_eq!(
        check_refund(&info(), &other_year, &good, &quorum(), BATCH, 5, NOW),
        Err(ErrorCode::InvalidRefundCachePda)
    );
    let mut wrong_vault = good;
    wrong_vault.vault.key = key(0);
    assert_eq!(
        check_refund(&info(), &cache, &wrong_vault, &quorum(), BATCH, 4, NOW),
        Err(ErrorCode::InvalidVaultPda)
    );
    let mut pending = info();
    pending.state = InvestmentState::Pending;
    assert_eq!(
        check_refund(&pending, &cache, &good, &quorum(), BATCH, 4, NOW),
        Err(ErrorCode::InvestmentInfoNotCompleted)
    );
    let mut csr = info();
    csr.investment_type = InvestmentType::Csr;
    assert_eq!(check_refund(&csr, &cache, &good, &quorum(), BATCH, 4, NOW), Ok(()));
    let mut other_batch = cache.clone();
    other_batch.batch_id = BATCH + 1;
    assert_eq!(
        check_refund(&info(), &other_batch, &good, &quorum(), BATCH, 4, NOW),
        Err(ErrorCode::BatchIdMismatch)
    );
    let mut executed = cache.clone();
    executed.executed_at = -1;
    assert_eq!(
        check_refund(&info(), &executed, &good, &quorum(), BATCH, 4, NOW),
        Err(ErrorCode::ProfitAlreadyExecuted)
    );
    assert_eq!(
        check_refund(&info(), &cache, &good, &quorum(), BATCH, 4, CREATED + 2_160_001),
        Err(ErrorCode::ProfitCacheExpired)
    );
    assert_eq!(
        check_refund(&info(), &refund_cache(&[0]), &good, &quorum(), BATCH, 4, NOW),
        Err(ErrorCode::InvalidTotalUsdt)
    );
    assert_eq!(
        check_refund(&info(), &cache, &good, &[], BATCH, 4, NOW),
        Err(ErrorCode::UnauthorizedSigner)
    );
    let mut other_asset = good;
    other_asset.mint.key = get_usdt_mint(NET);
    assert_eq!(
        check_refund(&info(), &cache, &other_asset, &quorum(), BATCH, 4, NOW),
        Err(ErrorCode::InvalidTokenMint)
    );
    assert_eq!(
        check_refund(&info(), &cache, &refund_accounts(41, 0), &quorum(), BATCH, 4, NOW),
        Err(ErrorCode::InsufficientSolBalance)
    );
    assert_eq!(
        check_refund(&info(), &cache, &refund_accounts(41, 110_000), &quorum(), BATCH, 4, NOW),
        Err(ErrorCode::InsufficientTokenBalance)
    );
}
