use anchor_lang::prelude::Pubkey;
use firebird_vault::address::{derive_vault, Address, VaultKind};
use firebird_vault::error::ErrorCode;
use firebird_vault::ledger::DCAData;
use firebird_vault::swap::{build_swap_accounts, AccountMeta, RaydiumSwapInstruction};
use firebird_vault::vault::{
    authorize, buy_back, deposit, sell, BuyBack, Config, Deposit, Sell, SwapAccounts, SwapCall,
    RAYDIUM_PROGRAM_ADDRESS, TRIGGER_ADDRESS,
};
use std::str::FromStr;

fn addr(b: u8) -> Address {
    Address::new([b; 32])
}

fn program_id() -> Address {
    Address::new(Pubkey::from_str("FSH9An6asnz4m4WdhUkmsCjTWh4Q3ytoa6mcEva6xYqZ").unwrap().to_bytes())
}

fn config() -> Config {
    Config::new(addr(200), addr(201))
}

fn swap_accounts(caller: Address, venue: Address) -> SwapAccounts {
    SwapAccounts {
        token_mint: addr(1),
        raydium_program: venue,
        pda_token_account: addr(2),
        pda_wsol_account: addr(3),
        token_program: addr(4),
        user_authority: caller,
        remaining_accounts: (0..14u8).map(|i| addr(100 + i)).collect(),
    }
}

fn record(asset: Address, piece: u64) -> DCAData {
    DCAData { token_address: asset, piece }
}

fn amount_in(call: &SwapCall) -> u64 {
    let mut b = [0u8; 8];
    b.copy_from_slice(&call.data[1..9]);
    u64::from_le_bytes(b)
}

fn keys(metas: &[AccountMeta]) -> Vec<[u8; 32]> {
    metas.iter().map(|m| m.pubkey.bytes).collect()
}

fn pda(tag: &[u8], asset: &Address) -> (Pubkey, u8) {
    let pid = Pubkey::new_from_array(program_id().bytes);
    Pubkey::find_program_address(&[tag, &asset.bytes], &pid)
}

#[test]
fn deposits_accumulate_per_call() {
    let mut d = Deposit { token_mint: addr(1), dca_data: DCAData::new() };
    deposit(&mut d, 150);
    deposit(&mut d, 250);
    deposit(&mut d, 99);
    assert_eq!(d.dca_data.piece, 3);
    assert_eq!(d.dca_data.token_address.bytes, [1u8; 32]);
}

#[test]
fn small_deposits_truncate_each() {
    let mut d = Deposit { token_mint: addr(1), dca_data: DCAData::new() };
    deposit(&mut d, 50);
    deposit(&mut d, 50);
    assert_eq!(d.dca_data.piece, 0);
    assert_eq!(d.dca_data.read_quota(&addr(1)), 0);
}

#[test]
fn first_deposit_sets_quota() {
    let mut d = DCAData::new();
    assert_eq!(d.token_address.bytes, [0u8; 32]);
    assert_eq!(d.piece, 0);
    d.record_deposit(&addr(7), 12_345);
    assert_eq!(d.piece, 123);
    assert_eq!(d.read_quota(&addr(7)), 123);
    assert_eq!(d.read_quota(&addr(8)), 0);
}

#[test]
fn deposit_of_other_asset_rekeys_slot() {
    let mut d = record(addr(7), 40);
    d.record_deposit(&addr(9), 1_000);
    assert_eq!(d.token_address.bytes, [9u8; 32]);
    assert_eq!(d.piece, 10);
}

#[test]
fn deposit_of_zero_adds_nothing() {
    let mut d = record(addr(7), 40);
    d.record_deposit(&addr(7), 0);
    assert_eq!(d.piece, 40);
}

#[test]
fn payload_is_bit_exact() {
    let ix = RaydiumSwapInstruction { instruction: 9, amount_in: 300, min_amount_out: 1 };
    assert_eq!(ix.to_bytes(), [9, 44, 1, 0, 0, 0, 0, 0, 0, 1, 0, 0, 0, 0, 0, 0, 0]);
    assert_eq!(ix.to_vec(), ix.to_bytes().to_vec());
}

#[test]
fn payload_of_extreme_amounts() {
    let ix = RaydiumSwapInstruction { instruction: 9, amount_in: u64::MAX, min_amount_out: 0x0102_0304_0506_0708 };
    let b = ix.to_bytes();
    assert_eq!(b[0], 9);
    assert_eq!(&b[1..9], &u64::MAX.to_le_bytes());
    assert_eq!(&b[9..17], &[8, 7, 6, 5, 4, 3, 2, 1]);
    assert_eq!(RaydiumSwapInstruction::swap(5), RaydiumSwapInstruction { instruction: 9, amount_in: 5, min_amount_out: 1 });
}

#[test]
fn account_list_order_and_flags() {
    let venue: Vec<Address> = (0..15u8).map(|i| addr(100 + i)).collect();
    let metas = build_swap_accounts(&addr(4), &venue, &addr(2), &addr(3), &addr(200));
    assert_eq!(metas.len(), 18);
    assert_eq!(metas[0].pubkey.bytes, [4u8; 32]);
    assert!(!metas[0].is_writable && !metas[0].is_signer);
    for i in 0..14 {
        let m = &metas[1 + i];
        assert_eq!(m.pubkey.bytes, [100 + i as u8; 32]);
        assert!(!m.is_signer);
        assert_eq!(m.is_writable, !(i == 1 || i == 6 || i == 13));
    }
    assert_eq!(metas[15].pubkey.bytes, [2u8; 32]);
    assert_eq!(metas[16].pubkey.bytes, [3u8; 32]);
    assert_eq!(metas[17].pubkey.bytes, [200u8; 32]);
    assert!(metas[15].is_writable && !metas[15].is_signer);
    assert!(metas[16].is_writable && !metas[16].is_signer);
    assert!(metas[17].is_writable && metas[17].is_signer);
}

#[test]
fn authorize_checks_caller_then_venue() {
    let c = config();
    assert_eq!(authorize(&c, &addr(200), &addr(201)), Ok(()));
    assert_eq!(authorize(&c, &addr(5), &addr(201)), Err(ErrorCode::InvalidTrigger));
    assert_eq!(authorize(&c, &addr(5), &addr(5)), Err(ErrorCode::InvalidTrigger));
    assert_eq!(authorize(&c, &addr(200), &addr(5)), Err(ErrorCode::InvalidRaydiumProgram));
}

#[test]
fn deployed_config_parses_constants() {
    let c = Config::deployed().unwrap();
    assert_eq!(c.trigger.bytes, Pubkey::from_str(TRIGGER_ADDRESS).unwrap().to_bytes());
    assert_eq!(c.venue.bytes, Pubkey::from_str(RAYDIUM_PROGRAM_ADDRESS).unwrap().to_bytes());
    assert_ne!(c.trigger.bytes, c.venue.bytes);
}

#[test]
fn sell_without_record_fails() {
    let s = Sell { accounts: swap_accounts(addr(200), addr(201)), dca_data: DCAData::new(), vault_balance: 1_000 };
    assert_eq!(sell(&s, &config(), &program_id()).unwrap_err(), ErrorCode::InvalidTokenAddress);
}

#[test]
fn sell_from_empty_vault_fails() {
    let s = Sell { accounts: swap_accounts(addr(200), addr(201)), dca_data: record(addr(1), 500), vault_balance: 0 };
    assert_eq!(sell(&s, &config(), &program_id()).unwrap_err(), ErrorCode::InsufficientFunds);
}

#[test]
fn sell_takes_at_most_the_balance() {
    let s = Sell { accounts: swap_accounts(addr(200), addr(201)), dca_data: record(addr(1), 500), vault_balance: 300 };
    let call = sell(&s, &config(), &program_id()).unwrap();
    assert_eq!(amount_in(&call), 300);
    assert_eq!(call.data.len(), 17);
    assert_eq!(call.data[0], 9);
    assert_eq!(&call.data[9..17], &1u64.to_le_bytes());
    assert_eq!(call.program_id.bytes, [201u8; 32]);
    let k = keys(&call.accounts);
    assert_eq!(k.len(), 18);
    assert_eq!(k[15], [2u8; 32]);
    assert_eq!(k[16], [3u8; 32]);
    assert_eq!(k[17], [200u8; 32]);
    let (_, bump) = pda(b"vault", &addr(1));
    assert_eq!(call.signer_seeds, vec![b"vault".to_vec(), vec![1u8; 32], vec![bump]]);
}

#[test]
fn sell_takes_the_quota_when_smaller() {
    let s = Sell { accounts: swap_accounts(addr(200), addr(201)), dca_data: record(addr(1), 5), vault_balance: 300 };
    let call = sell(&s, &config(), &program_id()).unwrap();
    assert_eq!(amount_in(&call), 5);
    assert_eq!(s.dca_data.piece, 5);
}

#[test]
fn sell_by_other_caller_fails() {
    let s = Sell { accounts: swap_accounts(addr(5), addr(201)), dca_data: record(addr(1), 500), vault_balance: 300 };
    assert_eq!(sell(&s, &config(), &program_id()).unwrap_err(), ErrorCode::InvalidTrigger);
    let s = Sell { accounts: swap_accounts(addr(200), addr(6)), dca_data: record(addr(1), 500), vault_balance: 300 };
    assert_eq!(sell(&s, &config(), &program_id()).unwrap_err(), ErrorCode::InvalidRaydiumProgram);
}

#[test]
fn buy_back_by_other_caller_fails() {
    let b = BuyBack { accounts: swap_accounts(addr(5), addr(201)), vault_balance: 300 };
    assert_eq!(buy_back(&b, &config(), &program_id(), 10).unwrap_err(), ErrorCode::InvalidTrigger);
    let b = BuyBack { accounts: swap_accounts(addr(200), addr(6)), vault_balance: 300 };
    assert_eq!(buy_back(&b, &config(), &program_id(), 10).unwrap_err(), ErrorCode::InvalidRaydiumProgram);
}

#[test]
fn buy_back_beyond_balance_fails() {
    let b = BuyBack { accounts: swap_accounts(addr(200), addr(201)), vault_balance: 300 };
    assert_eq!(buy_back(&b, &config(), &program_id(), 301).unwrap_err(), ErrorCode::InsufficientFunds);
}

#[test]
fn buy_back_reverses_the_vaults() {
    let b = BuyBack { accounts: swap_accounts(addr(200), addr(201)), vault_balance: 300 };
    let call = buy_back(&b, &config(), &program_id(), 300).unwrap();
    assert_eq!(amount_in(&call), 300);
    let k = keys(&call.accounts);
    assert_eq!(k[15], [3u8; 32]);
    assert_eq!(k[16], [2u8; 32]);
    let (_, bump) = pda(b"vault-wsol", &addr(1));
    assert_eq!(call.signer_seeds, vec![b"vault-wsol".to_vec(), vec![1u8; 32], vec![bump]]);
}

#[test]
fn derivation_is_repeatable() {
    let a = derive_vault(VaultKind::Sell, &addr(1), &program_id()).unwrap();
    let b = derive_vault(VaultKind::Sell, &addr(1), &program_id()).unwrap();
    assert_eq!(a.address.bytes, b.address.bytes);
    assert_eq!(a.bump, b.bump);
    assert_eq!(a.seeds, b.seeds);
    let (k, bump) = pda(b"vault", &addr(1));
    assert_eq!(a.address.bytes, k.to_bytes());
    assert_eq!(a.bump, bump);
}

#[test]
fn distinct_assets_derive_distinct_vaults() {
    let mut seen: Vec<[u8; 32]> = Vec::new();
    for i in 0..64u8 {
        let v = derive_vault(VaultKind::Sell, &addr(i), &program_id()).unwrap();
        assert!(!seen.contains(&v.address.bytes));
        seen.push(v.address.bytes);
    }
    let s = derive_vault(VaultKind::Sell, &addr(1), &program_id()).unwrap();
    let p = derive_vault(VaultKind::Proceeds, &addr(1), &program_id()).unwrap();
    assert_ne!(s.address.bytes, p.address.bytes);
}

#[test]
fn same_as_compares_every_byte() {
    let mut b = [3u8; 32];
    assert!(addr(3).same_as(&Address::new(b)));
    b[31] = 4;
    assert!(!addr(3).same_as(&Address::new(b)));
    assert_eq!(addr(3).to_vec(), vec![3u8; 32]);
}

fn short_accounts(caller: Address, venue: Address) -> SwapAccounts {
    let mut a = swap_accounts(caller, venue);
    a.remaining_accounts.truncate(13);
    a
}

#[test]
fn sell_with_too_few_venue_accounts_fails() {
    let s = Sell { accounts: short_accounts(addr(200), addr(201)), dca_data: record(addr(1), 500), vault_balance: 300 };
    assert_eq!(sell(&s, &config(), &program_id()).unwrap_err(), ErrorCode::MissingVenueAccounts);
}

#[test]
fn short_list_does_not_hide_earlier_refusals() {
    let s = Sell { accounts: short_accounts(addr(5), addr(201)), dca_data: record(addr(1), 500), vault_balance: 300 };
    assert_eq!(sell(&s, &config(), &program_id()).unwrap_err(), ErrorCode::InvalidTrigger);
    let s = Sell { accounts: short_accounts(addr(200), addr(201)), dca_data: DCAData::new(), vault_balance: 300 };
    assert_eq!(sell(&s, &config(), &program_id()).unwrap_err(), ErrorCode::InvalidTokenAddress);
    let s = Sell { accounts: short_accounts(addr(200), addr(201)), dca_data: record(addr(1), 500), vault_balance: 0 };
    assert_eq!(sell(&s, &config(), &program_id()).unwrap_err(), ErrorCode::InsufficientFunds);
    let b = BuyBack { accounts: short_accounts(addr(200), addr(6)), vault_balance: 300 };
    assert_eq!(buy_back(&b, &config(), &program_id(), 10).unwrap_err(), ErrorCode::InvalidRaydiumProgram);
    let b = BuyBack { accounts: short_accounts(addr(200), addr(201)), vault_balance: 300 };
    assert_eq!(buy_back(&b, &config(), &program_id(), 301).unwrap_err(), ErrorCode::InsufficientFunds);
}

#[test]
fn buy_back_with_too_few_venue_accounts_fails() {
    let b = BuyBack { accounts: short_accounts(addr(200), addr(201)), vault_balance: 300 };
    assert_eq!(buy_back(&b, &config(), &program_id(), 10).unwrap_err(), ErrorCode::MissingVenueAccounts);
}

#[test]
fn deposit_sequence_sums_truncated_shares() {
    let mut d = DCAData::new();
    d.record_deposits(&addr(1), &vec![150, 250, 99, 50, 50, 1_000]);
    assert_eq!(d.token_address.bytes, [1u8; 32]);
    assert_eq!(d.piece, 13);
    d.record_deposits(&addr(1), &vec![]);
    assert_eq!(d.piece, 13);
    let mut e = record(addr(2), 40);
    e.record_deposits(&addr(1), &vec![300, 700]);
    assert_eq!(e.piece, 10);
}
