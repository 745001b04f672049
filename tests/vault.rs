use anchor_lang::prelude::{Pubkey, Rent};
use anchor_vault_q3::accounts::{
    Lifecycle, StateAccount, VaultAccount, VaultError, VaultErrorCode, VaultState, Wallet,
    VAULT_STATE_SPACE,
};
use anchor_vault_q3::address::find_vault_addresses;
use anchor_vault_q3::instructions::{Close, Deposit, Initialize, InitializeBumps, Withdraw};
use anchor_vault_q3::program::{close, deposit, id, initialize, withdraw};

const USER_INITIAL_LAMPORTS: u64 = 10_000_000;

struct Setup {
    user: Wallet,
    vault_state: StateAccount,
    vault: VaultAccount,
    vault_state_bump: u8,
    vault_bump: u8,
}

fn fresh_accounts(user_key: [u8; 32]) -> Setup {
    let program_id = Pubkey::new_from_array(id());
    let user = Pubkey::new_from_array(user_key);
    let (vault_state, vault_state_bump) =
        Pubkey::find_program_address(&[b"state", user.as_ref()], &program_id);
    let (vault, vault_bump) =
        Pubkey::find_program_address(&[b"vault", vault_state.as_ref()], &program_id);
    Setup {
        user: Wallet { key: user_key, lamports: USER_INITIAL_LAMPORTS, is_signer: true },
        vault_state: StateAccount {
            key: vault_state.to_bytes(),
            lamports: 0,
            status: Lifecycle::Uninitialized,
            state: VaultState { bump: 0, vault_bump: 0 },
        },
        vault: VaultAccount { key: vault.to_bytes(), lamports: 0 },
        vault_state_bump,
        vault_bump,
    }
}

fn initialize_ix(s: &Setup) -> Initialize {
    Initialize { user: s.user, vault_state: s.vault_state, vault: s.vault, program_id: id() }
}

fn setup_initialized_vault() -> Initialize {
    let s = fresh_accounts([0x07; 32]);
    let mut ix = initialize_ix(&s);
    assert!(initialize(&mut ix).is_ok(), "Initialize should succeed");
    ix
}

fn deposit_ix(a: &Initialize) -> Deposit {
    Deposit { user: a.user, vault: a.vault, vault_state: a.vault_state, program_id: a.program_id }
}

fn setup_initialized_and_deposited_vault() -> Deposit {
    let init = setup_initialized_vault();
    let mut ix = deposit_ix(&init);
    assert!(deposit(&mut ix, 5_000_000).is_ok(), "Deposit should succeed");
    ix
}

fn withdraw_ix(a: &Deposit) -> Withdraw {
    Withdraw { user: a.user, vault: a.vault, vault_state: a.vault_state, program_id: a.program_id }
}

fn close_ix(a: &Withdraw) -> Close {
    Close { user: a.user, vault_state: a.vault_state, vault: a.vault, program_id: a.program_id }
}

#[test]
fn test_initialize() {
    let rent = Rent::default();
    let vault_state_space = 8 + VaultState::INIT_SPACE;
    let vault_state_rent = rent.minimum_balance(vault_state_space);
    let s = fresh_accounts([0x01; 32]);
    let mut ix = initialize_ix(&s);
    let result = initialize(&mut ix);
    assert!(result.is_ok(), "Initialize should succeed");
    assert_eq!(ix.vault_state.status, Lifecycle::Active);
    assert!(ix.vault_state.lamports >= vault_state_rent);
    assert_eq!(VAULT_STATE_SPACE, vault_state_space, "Vault state should have correct space");
    assert_eq!(ix.vault_state.state.bump, s.vault_state_bump, "Vault state should have correct bump");
    assert_eq!(ix.vault_state.state.vault_bump, s.vault_bump, "Vault should have correct bump");
    let expected_vault_rent = rent.minimum_balance(0);
    assert_eq!(ix.vault.lamports, expected_vault_rent);
}

#[test]
fn test_deposit_success() {
    let init = setup_initialized_vault();
    let rent = Rent::default();
    let vault_state_rent = rent.minimum_balance(8 + VaultState::INIT_SPACE);
    let vault_rent = rent.minimum_balance(0);
    let deposit_amount = 5_000_000;
    let mut ix = deposit_ix(&init);
    let result = deposit(&mut ix, deposit_amount);
    assert!(result.is_ok(), "Deposit should succeed");
    let expected_user_lamports = USER_INITIAL_LAMPORTS - vault_state_rent - vault_rent - deposit_amount;
    let expected_vault_lamports = vault_rent + deposit_amount;
    assert_eq!(
        ix.user.lamports, expected_user_lamports,
        "User lamports should decrease by vault rent + deposit amount"
    );
    assert_eq!(ix.vault.lamports, expected_vault_lamports, "Vault lamports should be rent + deposit amount");
}

#[test]
fn test_withdraw_success() {
    let deposited = setup_initialized_and_deposited_vault();
    let withdraw_amount = 5_000_000;
    let mut ix = withdraw_ix(&deposited);
    let user_lamports_before = ix.user.lamports;
    let vault_lamports_before = ix.vault.lamports;
    let result = withdraw(&mut ix, withdraw_amount);
    assert!(result.is_ok(), "Withdraw should succeed");
    assert_eq!(
        ix.user.lamports,
        user_lamports_before + withdraw_amount,
        "User lamports should increase by withdraw amount"
    );
    assert_eq!(
        ix.vault.lamports,
        vault_lamports_before - withdraw_amount,
        "Vault lamports should decrease by withdraw amount"
    );
}

#[test]
fn test_close_success() {
    let deposited = setup_initialized_and_deposited_vault();
    let withdraw_amount = 5_000_000;
    let mut wx = withdraw_ix(&deposited);
    assert!(withdraw(&mut wx, withdraw_amount).is_ok(), "Withdraw should succeed");
    let mut cx = close_ix(&wx);
    assert!(close(&mut cx).is_ok(), "Close should succeed");
    assert_eq!(
        cx.user.lamports, USER_INITIAL_LAMPORTS,
        "User should receive vault lamports and vault_state rent"
    );
    assert_eq!(cx.vault.lamports, 0, "Vault should be empty after close");
    assert!(
        cx.vault_state.status == Lifecycle::Closed && cx.vault_state.lamports == 0,
        "Vault state should be closed"
    );
    assert_eq!(cx.vault_state.state, VaultState { bump: 0, vault_bump: 0 });
}

#[test]
fn full_lifecycle_restores_user_balance() {
    let s = fresh_accounts([0x22; 32]);
    let mut ix = initialize_ix(&s);
    initialize(&mut ix).unwrap();
    assert_eq!(ix.vault.lamports, 890_880);
    assert_eq!(ix.vault_state.lamports, 960_480);
    assert_eq!(ix.user.lamports, USER_INITIAL_LAMPORTS - 890_880 - 960_480);
    let mut dx = deposit_ix(&ix);
    deposit(&mut dx, 5_000_000).unwrap();
    assert_eq!(dx.vault.lamports, ix.vault.lamports + 5_000_000);
    assert_eq!(dx.user.lamports, ix.user.lamports - 5_000_000);
    let mut wx = withdraw_ix(&dx);
    withdraw(&mut wx, 5_000_000).unwrap();
    assert_eq!(wx.vault.lamports, ix.vault.lamports);
    assert_eq!(wx.user.lamports, ix.user.lamports);
    let mut cx = close_ix(&wx);
    close(&mut cx).unwrap();
    assert_eq!(cx.user.lamports, USER_INITIAL_LAMPORTS);
    assert_eq!(cx.vault.lamports, 0);
    assert_eq!(cx.vault_state.lamports, 0);
}

#[test]
fn initialize_twice_fails() {
    let mut ix = setup_initialized_vault();
    let before = ix;
    assert_eq!(initialize(&mut ix), Err(VaultError::AccountAlreadyInUse));
    assert_eq!(ix.user.lamports, before.user.lamports);
    assert_eq!(ix.vault.lamports, before.vault.lamports);
    assert_eq!(ix.vault_state.state, before.vault_state.state);
}

#[test]
fn initialize_again_after_close() {
    let deposited = setup_initialized_and_deposited_vault();
    let mut cx = close_ix(&withdraw_ix(&deposited));
    close(&mut cx).unwrap();
    let mut ix = Initialize { user: cx.user, vault_state: cx.vault_state, vault: cx.vault, program_id: id() };
    assert!(initialize(&mut ix).is_ok());
    assert_eq!(ix.vault_state.status, Lifecycle::Active);
    assert_eq!(ix.vault.lamports, 890_880);
}

#[test]
fn deposit_then_withdraw_restores_balances() {
    let init = setup_initialized_vault();
    let mut dx = deposit_ix(&init);
    deposit(&mut dx, 1_234_567).unwrap();
    let mut wx = withdraw_ix(&dx);
    withdraw(&mut wx, 1_234_567).unwrap();
    assert_eq!(wx.user.lamports, init.user.lamports);
    assert_eq!(wx.vault.lamports, init.vault.lamports);
}

#[test]
fn withdraw_below_floor_fails() {
    let deposited = setup_initialized_and_deposited_vault();
    let mut wx = withdraw_ix(&deposited);
    let before = wx.vault.lamports;
    assert_eq!(
        withdraw(&mut wx, 890_879),
        Err(VaultError::Program(VaultErrorCode::InsufficientWithdrawalAmount))
    );
    assert_eq!(wx.vault.lamports, before);
    assert!(withdraw(&mut wx, 890_880).is_ok());
}

#[test]
fn withdraw_may_drain_vault_past_floor() {
    let deposited = setup_initialized_and_deposited_vault();
    let mut wx = withdraw_ix(&deposited);
    assert_eq!(wx.vault.lamports, 5_890_880);
    assert!(withdraw(&mut wx, 5_890_880).is_ok());
    assert_eq!(wx.vault.lamports, 0);
}

#[test]
fn withdraw_over_balance_fails() {
    let deposited = setup_initialized_and_deposited_vault();
    let mut wx = withdraw_ix(&deposited);
    assert_eq!(
        withdraw(&mut wx, 5_890_881),
        Err(VaultError::Program(VaultErrorCode::InsufficientVaultBalance))
    );
    assert_eq!(wx.vault.lamports, 5_890_880);
}

#[test]
fn close_empty_vault_fails() {
    let deposited = setup_initialized_and_deposited_vault();
    let mut wx = withdraw_ix(&deposited);
    withdraw(&mut wx, 5_890_880).unwrap();
    let mut cx = close_ix(&wx);
    assert_eq!(close(&mut cx), Err(VaultError::Program(VaultErrorCode::VaultAlreadyClosed)));
    assert_eq!(cx.vault_state.status, Lifecycle::Active);
}

#[test]
fn unsigned_user_is_refused() {
    let mut s = fresh_accounts([0x31; 32]);
    s.user.is_signer = false;
    let mut ix = initialize_ix(&s);
    assert_eq!(initialize(&mut ix), Err(VaultError::AccountNotSigner));
    let mut dx = deposit_ix(&setup_initialized_vault());
    dx.user.is_signer = false;
    assert_eq!(deposit(&mut dx, 10), Err(VaultError::AccountNotSigner));
}

#[test]
fn wrong_addresses_are_refused() {
    let mut s = fresh_accounts([0x41; 32]);
    s.vault.key = [9; 32];
    let mut ix = initialize_ix(&s);
    assert_eq!(initialize(&mut ix), Err(VaultError::ConstraintSeeds));
    assert_eq!(ix.vault_state.status, Lifecycle::Uninitialized);
    assert_eq!(ix.user.lamports, USER_INITIAL_LAMPORTS);
    let mut dx = deposit_ix(&setup_initialized_vault());
    dx.vault_state.state.vault_bump = dx.vault_state.state.vault_bump.wrapping_add(1);
    assert_eq!(deposit(&mut dx, 10), Err(VaultError::ConstraintSeeds));
}

#[test]
fn uninitialized_vault_is_refused() {
    let s = fresh_accounts([0x51; 32]);
    let mut dx = Deposit { user: s.user, vault: s.vault, vault_state: s.vault_state, program_id: id() };
    assert_eq!(deposit(&mut dx, 10), Err(VaultError::AccountNotInitialized));
}

#[test]
fn deposit_over_user_balance_fails() {
    let init = setup_initialized_vault();
    let mut dx = deposit_ix(&init);
    let have = dx.user.lamports;
    assert_eq!(deposit(&mut dx, have + 1), Err(VaultError::InsufficientFunds));
    assert_eq!(dx.user.lamports, have);
}

#[test]
fn initialize_without_funds_fails_and_changes_nothing() {
    let mut s = fresh_accounts([0x61; 32]);
    s.user.lamports = 1_000_000;
    let mut ix = initialize_ix(&s);
    assert_eq!(initialize(&mut ix), Err(VaultError::InsufficientFunds));
    assert_eq!(ix.user.lamports, 1_000_000);
    assert_eq!(ix.vault_state.lamports, 0);
    assert_eq!(ix.vault_state.status, Lifecycle::Uninitialized);
}

#[test]
fn deposit_overflowing_vault_fails() {
    let init = setup_initialized_vault();
    let mut dx = deposit_ix(&init);
    dx.vault.lamports = u64::MAX;
    assert_eq!(deposit(&mut dx, 1), Err(VaultError::ArithmeticOverflow));
}

#[test]
fn withdraw_handler_needs_witness() {
    let deposited = setup_initialized_and_deposited_vault();
    let mut wx = withdraw_ix(&deposited);
    wx.vault_state.state.vault_bump = wx.vault_state.state.vault_bump.wrapping_sub(1);
    assert_eq!(wx.withdraw(1_000_000), Err(VaultError::MissingAuthority));
}

#[test]
fn initialize_handler_records_bumps() {
    let s = fresh_accounts([0x71; 32]);
    let mut ix = initialize_ix(&s);
    ix.initialize(InitializeBumps { vault_state: 3, vault: 4 }).unwrap();
    assert_eq!(ix.vault_state.state, VaultState { bump: 3, vault_bump: 4 });
    assert_eq!(ix.vault.lamports, 890_880);
}

#[test]
fn derivation_matches_and_repeats() {
    let user = [0x01; 32];
    let first = find_vault_addresses(&user, &id()).unwrap();
    let second = find_vault_addresses(&user, &id()).unwrap();
    assert_eq!(first.vault_state, second.vault_state);
    assert_eq!(first.vault, second.vault);
    assert_eq!((first.state_bump, first.vault_bump), (second.state_bump, second.vault_bump));
    let s = fresh_accounts(user);
    assert_eq!(first.vault_state, s.vault_state.key);
    assert_eq!(first.vault, s.vault.key);
    assert_eq!(first.state_bump, s.vault_state_bump);
    assert_eq!(first.vault_bump, s.vault_bump);
    assert_ne!(first.vault_state, user);
}

#[test]
fn rent_floors_follow_default_rent() {
    let rent = Rent::default();
    let s = fresh_accounts([0x81; 32]);
    let mut ix = initialize_ix(&s);
    initialize(&mut ix).unwrap();
    assert_eq!(ix.vault.lamports, rent.minimum_balance(0));
    assert_eq!(ix.vault_state.lamports, rent.minimum_balance(VAULT_STATE_SPACE));
    assert_eq!(ix.vault.lamports, 890_880);
    assert_eq!(ix.vault_state.lamports, 960_480);
}

#[test]
fn program_id_matches() {
    assert_eq!(Pubkey::new_from_array(id()).to_string(), "EQSjMmLReExSNm29r7MW1RX5UQCQbhv2bpjZYPTAAwXH");
}

#[test]
fn error_messages() {
    assert_eq!(VaultErrorCode::InsufficientWithdrawalAmount.message(), "Insufficient withdrawal amount");
    assert_eq!(VaultErrorCode::InsufficientVaultBalance.message(), "Insufficient balance in vault");
    assert_eq!(VaultErrorCode::VaultAlreadyClosed.message(), "Vault already closed");
}
