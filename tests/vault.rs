use tx_vault::{
    check_vault_address, close_vault, deposit, emergency_pause, find_tx_record_address,
    find_vault_address, initialize_vault, le_bytes_of, log_transaction, resume_vault,
    tx_record_seeds, vault_address_matches, vault_seeds, withdraw, CloseVault, Deposit,
    EmergencyPause, InitializeVault, LogTransaction, Pubkey, TxType, VaultAccount, VaultError,
    Withdraw,
};

const RESERVE: u64 = 1_350_240;

fn key(b: u8) -> Pubkey {
    Pubkey::new_from_array([b; 32])
}

fn program() -> Pubkey {
    key(7)
}

fn new_vault(authority: Pubkey) -> VaultAccount {
    let (addr, bump) = find_vault_address(&authority, &program()).unwrap();
    let ctx = InitializeVault { vault_key: addr, bump, authority, reserve: RESERVE };
    initialize_vault(&ctx).0
}

fn same(a: &VaultAccount, b: &VaultAccount) -> bool {
    a.key == b.key
        && a.data.authority == b.data.authority
        && a.data.total_deposited == b.data.total_deposited
        && a.data.total_withdrawn == b.data.total_withdrawn
        && a.data.tx_count == b.data.tx_count
        && a.data.bump == b.data.bump
        && a.data.is_paused == b.data.is_paused
        && a.lamports == b.lamports
        && a.reserve == b.reserve
}

fn conserved(a: &VaultAccount) -> bool {
    a.lamports == a.reserve + a.data.total_deposited - a.data.total_withdrawn
}

fn do_deposit(v: VaultAccount, from: Pubkey, amount: u64) -> (VaultAccount, Result<u64, VaultError>) {
    let mut ctx = Deposit { vault: v, depositor: from };
    let r = deposit(&mut ctx, amount).map(|e| e.total_deposited);
    (ctx.vault, r)
}

fn do_withdraw(v: VaultAccount, by: Pubkey, amount: u64) -> (VaultAccount, Result<u64, VaultError>) {
    let mut ctx = Withdraw { vault: v, authority: by, authority_lamports: 0 };
    let r = withdraw(&mut ctx, amount).map(|e| e.total_withdrawn);
    (ctx.vault, r)
}

fn do_pause(v: VaultAccount, by: Pubkey) -> (VaultAccount, Result<(), VaultError>) {
    let mut ctx = EmergencyPause { vault: v, authority: by, timestamp: 1_700_000_000 };
    let r = emergency_pause(&mut ctx).map(|_| ());
    (ctx.vault, r)
}

fn do_resume(v: VaultAccount, by: Pubkey) -> (VaultAccount, Result<(), VaultError>) {
    let mut ctx = EmergencyPause { vault: v, authority: by, timestamp: 1_700_000_100 };
    let r = resume_vault(&mut ctx).map(|_| ());
    (ctx.vault, r)
}

fn do_log(v: VaultAccount, by: Pubkey, description: &str) -> (VaultAccount, Result<(), VaultError>) {
    let mut ctx = LogTransaction { vault: v, authority: by, timestamp: 5, slot: 9 };
    let r = log_transaction(&mut ctx, TxType::Transfer, 1, description.to_string()).map(|_| ());
    (ctx.vault, r)
}

#[test]
fn full_lifecycle_scenario() {
    let x = key(1);
    let y = key(2);
    let v = new_vault(x);
    assert!(check_vault_address(&v, &program()));
    let before_available = v.available();

    let (v, r) = do_deposit(v, y, 1_000_000);
    assert_eq!(r, Ok(1_000_000));
    assert_eq!(v.data.total_deposited, 1_000_000);
    assert_eq!(v.data.tx_count, 1);
    let after_deposit = v.available();
    assert_eq!(after_deposit, before_available + 1_000_000);

    let mut wctx = Withdraw { vault: v, authority: x, authority_lamports: 10 };
    let ev = withdraw(&mut wctx, 400_000).unwrap();
    assert_eq!(ev.total_withdrawn, 400_000);
    assert_eq!(ev.amount, 400_000);
    assert!(ev.authority == x);
    assert_eq!(wctx.authority_lamports, 400_010);
    let v = wctx.vault;
    assert_eq!(v.data.total_withdrawn, 400_000);
    assert_eq!(v.data.tx_count, 2);
    assert_eq!(v.available(), after_deposit - 400_000);

    let (v, r) = do_pause(v, x);
    assert_eq!(r, Ok(()));
    let paused = v;
    let (v, r) = do_deposit(v, y, 500);
    assert_eq!(r, Err(VaultError::VaultPaused));
    assert!(same(&v, &paused));

    let (v, r) = do_resume(v, x);
    assert_eq!(r, Ok(()));
    let (v, r) = do_deposit(v, y, 500);
    assert_eq!(r, Ok(1_000_500));
    assert_eq!(v.data.total_deposited, 1_000_500);
    assert_eq!(v.data.tx_count, 3);

    let index = v.data.tx_count;
    assert_eq!(index, 3);
    let record_addr = find_tx_record_address(&v.key, index, &program()).unwrap().0;
    let mut lctx = LogTransaction { vault: v, authority: x, timestamp: 1_700_000_200, slot: 42 };
    let (record, event) =
        log_transaction(&mut lctx, TxType::Swap, 200_000, "swap note".to_string()).unwrap();
    assert_eq!(lctx.vault.data.tx_count, 4);
    assert!(record.vault == lctx.vault.key);
    assert!(record.authority == x);
    assert_eq!(record.tx_type, TxType::Swap);
    assert_eq!(record.amount, 200_000);
    assert_eq!(record.description, "swap note");
    assert_eq!(record.timestamp, 1_700_000_200);
    assert_eq!(record.slot, 42);
    assert_eq!(event.description, "swap note");
    assert_eq!(event.amount, 200_000);
    assert!(record_addr == find_tx_record_address(&lctx.vault.key, 3, &program()).unwrap().0);
    assert!(!(record_addr == find_tx_record_address(&lctx.vault.key, 4, &program()).unwrap().0));
    let v = lctx.vault;
    assert!(conserved(&v));

    let held = v.lamports;
    let ctx = CloseVault { vault: v, authority: x, authority_lamports: 400_010 };
    assert_eq!(close_vault(ctx), Ok(400_010 + held));
    assert_eq!(held, RESERVE + 1_000_500 - 400_000);
}

#[test]
fn conservation_holds_through_operations() {
    let x = key(1);
    let v = new_vault(x);
    assert!(conserved(&v));
    assert_eq!(v.lamports, RESERVE);
    let (v, _) = do_deposit(v, key(3), 77);
    assert!(conserved(&v));
    let (v, _) = do_withdraw(v, x, 30);
    assert!(conserved(&v));
    let (v, _) = do_log(v, x, "note");
    assert!(conserved(&v));
    let (v, _) = do_pause(v, x);
    assert!(conserved(&v));
    assert_eq!(v.lamports - v.reserve, 47);
}

#[test]
fn tx_count_counts_successes_only() {
    let x = key(1);
    let v = new_vault(x);
    assert_eq!(v.data.tx_count, 0);
    let (v, _) = do_deposit(v, key(3), 10);
    assert_eq!(v.data.tx_count, 1);
    let (v, r) = do_deposit(v, key(3), 0);
    assert_eq!(r, Err(VaultError::InvalidAmount));
    assert_eq!(v.data.tx_count, 1);
    let (v, _) = do_withdraw(v, x, 5);
    assert_eq!(v.data.tx_count, 2);
    let (v, _) = do_log(v, x, "n");
    assert_eq!(v.data.tx_count, 3);
    let (v, _) = do_pause(v, x);
    let (v, _) = do_resume(v, x);
    assert_eq!(v.data.tx_count, 3);
}

#[test]
fn pause_and_resume_are_idempotent() {
    let x = key(1);
    let v = new_vault(x);
    let (v, r1) = do_pause(v, x);
    let (v, r2) = do_pause(v, x);
    assert_eq!(r1, Ok(()));
    assert_eq!(r2, Ok(()));
    assert!(v.data.is_paused);
    let (v, r1) = do_resume(v, x);
    let (v, r2) = do_resume(v, x);
    assert_eq!(r1, Ok(()));
    assert_eq!(r2, Ok(()));
    assert!(!v.data.is_paused);
}

#[test]
fn pause_needs_authority() {
    let x = key(1);
    let v = new_vault(x);
    let (v, r) = do_pause(v, key(9));
    assert_eq!(r, Err(VaultError::Unauthorized));
    assert!(!v.data.is_paused);
    let (v, _) = do_pause(v, x);
    let (v, r) = do_resume(v, key(9));
    assert_eq!(r, Err(VaultError::Unauthorized));
    assert!(v.data.is_paused);
}

#[test]
fn paused_vault_moves_no_value() {
    let x = key(1);
    let (v, _) = do_deposit(new_vault(x), key(2), 1_000);
    let (v, _) = do_pause(v, x);
    let snapshot = v;
    for amount in [0u64, 1, 500, u64::MAX] {
        let (after, r) = do_deposit(v, key(2), amount);
        assert_eq!(r, Err(VaultError::VaultPaused));
        assert!(same(&after, &snapshot));
        let (after, r) = do_withdraw(v, x, amount);
        assert_eq!(r, Err(VaultError::VaultPaused));
        assert!(same(&after, &snapshot));
    }
    let (v, r) = do_log(v, x, "still logs");
    assert_eq!(r, Ok(()));
    assert_eq!(v.data.tx_count, 2);
}

#[test]
fn withdraw_by_stranger_is_unauthorized() {
    let x = key(1);
    let (v, _) = do_deposit(new_vault(x), key(2), 1_000);
    let snapshot = v;
    for amount in [0u64, 1, 1_000, u64::MAX] {
        let (after, r) = do_withdraw(v, key(2), amount);
        assert_eq!(r, Err(VaultError::Unauthorized));
        assert!(same(&after, &snapshot));
    }
    let (v, _) = do_pause(v, x);
    let (_, r) = do_withdraw(v, key(2), 0);
    assert_eq!(r, Err(VaultError::Unauthorized));
}

#[test]
fn deposit_then_withdraw_restores_net_balance() {
    let x = key(1);
    let (v, _) = do_deposit(new_vault(x), key(2), 5_000);
    let (v, _) = do_withdraw(v, x, 1_000);
    let net = v.data.total_deposited - v.data.total_withdrawn;
    let available = v.available();
    let (v, r) = do_deposit(v, key(2), 2_500);
    assert!(r.is_ok());
    let (v, r) = do_withdraw(v, x, 2_500);
    assert!(r.is_ok());
    assert_eq!(v.data.total_deposited - v.data.total_withdrawn, net);
    assert_eq!(v.available(), available);
}

#[test]
fn description_limit_is_128_bytes() {
    let x = key(1);
    let v = new_vault(x);
    let long = "a".repeat(129);
    let (v, r) = do_log(v, x, &long);
    assert_eq!(r, Err(VaultError::DescriptionTooLong));
    assert_eq!(v.data.tx_count, 0);
    let exact = "a".repeat(128);
    let (v, r) = do_log(v, x, &exact);
    assert_eq!(r, Ok(()));
    assert_eq!(v.data.tx_count, 1);
    let (v, r) = do_log(v, x, "");
    assert_eq!(r, Ok(()));
    let (v, r) = do_log(v, x, &"\u{e9}".repeat(64));
    assert_eq!(r, Ok(()));
    let (_, r) = do_log(v, x, &"\u{e9}".repeat(65));
    assert_eq!(r, Err(VaultError::DescriptionTooLong));
}

#[test]
fn log_needs_authority() {
    let v = new_vault(key(1));
    let (v, r) = do_log(v, key(2), "x");
    assert_eq!(r, Err(VaultError::Unauthorized));
    assert_eq!(v.data.tx_count, 0);
}

#[test]
fn deposits_past_u64_max_overflow() {
    let x = key(1);
    let (addr, bump) = find_vault_address(&x, &program()).unwrap();
    let (v, _) = initialize_vault(&InitializeVault { vault_key: addr, bump, authority: x, reserve: 0 });
    let (v, r) = do_deposit(v, key(2), u64::MAX - 10);
    assert_eq!(r, Ok(u64::MAX - 10));
    let snapshot = v;
    let (v, r) = do_deposit(v, key(2), 11);
    assert_eq!(r, Err(VaultError::Overflow));
    assert!(same(&v, &snapshot));
    let (v, r) = do_deposit(v, key(2), u64::MAX);
    assert_eq!(r, Err(VaultError::Overflow));
    assert!(same(&v, &snapshot));
    let (v, r) = do_deposit(v, key(2), 10);
    assert_eq!(r, Ok(u64::MAX));
    assert!(conserved(&v));
}

#[test]
fn balance_overflow_is_rejected() {
    let x = key(1);
    let (v, _) = do_deposit(new_vault(x), key(2), u64::MAX - RESERVE);
    assert_eq!(v.lamports, u64::MAX);
    let (_, r) = do_deposit(v, key(2), 1);
    assert_eq!(r, Err(VaultError::Overflow));
}

#[test]
fn tx_count_overflow_is_rejected() {
    let x = key(1);
    let mut v = new_vault(x);
    v.data.tx_count = u64::MAX;
    let (v, r) = do_log(v, x, "n");
    assert_eq!(r, Err(VaultError::Overflow));
    let (_, r) = do_deposit(v, key(2), 1);
    assert_eq!(r, Err(VaultError::Overflow));
}

#[test]
fn withdraw_respects_reserve_floor() {
    let x = key(1);
    let (v, _) = do_deposit(new_vault(x), key(2), 1_000);
    assert_eq!(v.available(), 1_000);
    let (v, r) = do_withdraw(v, x, 1_001);
    assert_eq!(r, Err(VaultError::InsufficientFunds));
    let (v, r) = do_withdraw(v, x, 0);
    assert_eq!(r, Err(VaultError::InvalidAmount));
    let (v, r) = do_withdraw(v, x, 1_000);
    assert_eq!(r, Ok(1_000));
    assert_eq!(v.lamports, RESERVE);
    let ctx = CloseVault { vault: v, authority: x, authority_lamports: 0 };
    assert_eq!(close_vault(ctx), Ok(RESERVE));
}

#[test]
fn close_checks_authority_and_overflow() {
    let x = key(1);
    let v = new_vault(x);
    assert_eq!(close_vault(CloseVault { vault: v, authority: key(2), authority_lamports: 0 }), Err(VaultError::Unauthorized));
    assert_eq!(close_vault(CloseVault { vault: v, authority: x, authority_lamports: u64::MAX }), Err(VaultError::Overflow));
    let (v, _) = do_pause(v, x);
    assert_eq!(close_vault(CloseVault { vault: v, authority: x, authority_lamports: 1 }), Ok(RESERVE + 1));
}

#[test]
fn initialize_sets_fresh_state() {
    let x = key(4);
    let (addr, bump) = find_vault_address(&x, &program()).unwrap();
    let (acct, event) = initialize_vault(&InitializeVault { vault_key: addr, bump, authority: x, reserve: 9 });
    assert!(event.vault == addr);
    assert!(event.authority == x);
    assert_eq!(acct.data.total_deposited, 0);
    assert_eq!(acct.data.total_withdrawn, 0);
    assert_eq!(acct.data.tx_count, 0);
    assert_eq!(acct.data.bump, bump);
    assert!(!acct.data.is_paused);
    assert_eq!(acct.lamports, 9);
}

#[test]
fn vault_address_is_derived_and_checked() {
    let x = key(1);
    let (addr, bump) = find_vault_address(&x, &program()).unwrap();
    assert!(!(addr == x));
    assert!(!(addr == program()));
    let again = find_vault_address(&x, &program()).unwrap();
    assert!(again.0 == addr && again.1 == bump);
    let other = find_vault_address(&key(2), &program()).unwrap();
    assert!(!(other.0 == addr));
    assert!(vault_address_matches(&addr, &x, bump, &program()));
    assert!(!vault_address_matches(&addr, &key(2), bump, &program()));
    assert!(!vault_address_matches(&other.0, &x, bump, &program()));
    let mut moved = new_vault(x);
    moved.key = other.0;
    assert!(!check_vault_address(&moved, &program()));
}

#[test]
fn record_addresses_differ_per_index_and_vault() {
    let v = key(5);
    let a = find_tx_record_address(&v, 0, &program()).unwrap().0;
    let b = find_tx_record_address(&v, 1, &program()).unwrap().0;
    let c = find_tx_record_address(&key(6), 0, &program()).unwrap().0;
    assert!(!(a == b));
    assert!(!(a == c));
    assert!(a == find_tx_record_address(&v, 0, &program()).unwrap().0);
}

#[test]
fn seeds_have_the_expected_bytes() {
    let s = vault_seeds(&key(3));
    assert_eq!(s.len(), 2);
    assert_eq!(s[0], b"vault".to_vec());
    assert_eq!(s[1], vec![3u8; 32]);
    let t = tx_record_seeds(&key(4), 3);
    assert_eq!(t.len(), 3);
    assert_eq!(t[0], b"tx_record".to_vec());
    assert_eq!(t[1], vec![4u8; 32]);
    assert_eq!(t[2], 3u64.to_le_bytes().to_vec());
    assert_eq!(le_bytes_of(0x0102_0304_0506_0708), vec![8, 7, 6, 5, 4, 3, 2, 1]);
    assert_eq!(le_bytes_of(u64::MAX), vec![255u8; 8]);
}

#[test]
fn pubkey_equality_and_bytes() {
    let a = key(1);
    let mut bytes = [1u8; 32];
    assert!(a == Pubkey::new_from_array(bytes));
    bytes[31] = 2;
    assert!(!(a == Pubkey::new_from_array(bytes)));
    assert_eq!(a.to_bytes(), [1u8; 32]);
    assert_eq!(a.to_vec(), vec![1u8; 32]);
}
