//! The four instructions: each names the accounts it works on, and its
//! handler runs once the accounts have been resolved.

use vstd::prelude::*;

use crate::accounts::{
    moved, transfer, StateAccount, VaultAccount, VaultAccounts, VaultError, VaultErrorCode,
    VaultState, Wallet, VAULT_SPACE,
};
use crate::address::{check_witness, vault_tag, vault_tag_bytes, witnesses};
use crate::rent::{minimum_balance, rent_exempt_minimum};

verus! {

/// Accounts of the instruction that creates a vault.
#[derive(Clone, Copy, Debug)]
pub struct Initialize {
    pub user: Wallet,
    pub vault_state: StateAccount,
    pub vault: VaultAccount,
    pub program_id: [u8; 32],
}

/// The bumps that resolving `Initialize` found.
#[derive(Clone, Copy, Debug, PartialEq, Eq, Structural)]
pub struct InitializeBumps {
    pub vault_state: u8,
    pub vault: u8,
}

/// Accounts of the instruction that pays into the vault.
#[derive(Clone, Copy, Debug)]
pub struct Deposit {
    pub user: Wallet,
    pub vault: VaultAccount,
    pub vault_state: StateAccount,
    pub program_id: [u8; 32],
}

/// Accounts of the instruction that pays out of the vault.
#[derive(Clone, Copy, Debug)]
pub struct Withdraw {
    pub user: Wallet,
    pub vault: VaultAccount,
    pub vault_state: StateAccount,
    pub program_id: [u8; 32],
}

/// Accounts of the instruction that drains the vault and retires its record.
#[derive(Clone, Copy, Debug)]
pub struct Close {
    pub user: Wallet,
    pub vault_state: StateAccount,
    pub vault: VaultAccount,
    pub program_id: [u8; 32],
}

impl View for Initialize {
    type V = VaultAccounts;

    open spec fn view(&self) -> VaultAccounts {
        VaultAccounts { user: self.user, vault_state: self.vault_state, vault: self.vault, program_id: self.program_id }
    }
}

impl View for Deposit {
    type V = VaultAccounts;

    open spec fn view(&self) -> VaultAccounts {
        VaultAccounts { user: self.user, vault_state: self.vault_state, vault: self.vault, program_id: self.program_id }
    }
}

impl View for Withdraw {
    type V = VaultAccounts;

    open spec fn view(&self) -> VaultAccounts {
        VaultAccounts { user: self.user, vault_state: self.vault_state, vault: self.vault, program_id: self.program_id }
    }
}

impl View for Close {
    type V = VaultAccounts;

    open spec fn view(&self) -> VaultAccounts {
        VaultAccounts { user: self.user, vault_state: self.vault_state, vault: self.vault, program_id: self.program_id }
    }
}

/// The accounts with new balances for the user and the vault.
pub open spec fn with_balances(a: VaultAccounts, user: u64, vault: u64) -> VaultAccounts {
    VaultAccounts {
        user: Wallet { lamports: user, ..a.user },
        vault: VaultAccount { lamports: vault, ..a.vault },
        ..a
    }
}

/// The accounts with a new record in the vault-state account.
pub open spec fn with_record(a: VaultAccounts, state: VaultState) -> VaultAccounts {
    VaultAccounts { vault_state: StateAccount { state, ..a.vault_state }, ..a }
}

/// Whether the vault's stored bump proves the program's authority over it.
pub open spec fn vault_witnessed(a: VaultAccounts) -> bool {
    witnesses(vault_tag(), a.vault_state.key@, a.vault_state.state.vault_bump, a.program_id@, a.vault.key@)
}

/// The handler of `Initialize`: fund the vault to its rent floor out of the
/// user's account and record both bumps.
pub open spec fn initialize_handled(a: VaultAccounts, bumps: InitializeBumps) -> Result<VaultAccounts, VaultError> {
    match moved(a.user.lamports, a.vault.lamports, minimum_balance(VAULT_SPACE as nat) as u64) {
        Ok((u, v)) => Ok(with_record(with_balances(a, u, v), VaultState { bump: bumps.vault_state, vault_bump: bumps.vault })),
        Err(e) => Err(e),
    }
}

/// The handler of `Deposit`: move `amount` from the signing user to the vault.
pub open spec fn deposit_handled(a: VaultAccounts, amount: u64) -> Result<VaultAccounts, VaultError> {
    if !a.user.is_signer {
        Err(VaultError::AccountNotSigner)
    } else {
        match moved(a.user.lamports, a.vault.lamports, amount) {
            Ok((u, v)) => Ok(with_balances(a, u, v)),
            Err(e) => Err(e),
        }
    }
}

/// The handler of `Withdraw`: refuse amounts under the vault's rent floor or
/// over its balance, else move `amount` from the vault to the user under the
/// vault's derivation witness.
pub open spec fn withdraw_handled(a: VaultAccounts, amount: u64) -> Result<VaultAccounts, VaultError> {
    if amount < minimum_balance(VAULT_SPACE as nat) {
        Err(VaultError::Program(VaultErrorCode::InsufficientWithdrawalAmount))
    } else if amount > a.vault.lamports {
        Err(VaultError::Program(VaultErrorCode::InsufficientVaultBalance))
    } else if !vault_witnessed(a) {
        Err(VaultError::MissingAuthority)
    } else {
        match moved(a.vault.lamports, a.user.lamports, amount) {
            Ok((v, u)) => Ok(with_balances(a, u, v)),
            Err(e) => Err(e),
        }
    }
}

/// The handler of `Close`: refuse an empty vault, else move its whole balance
/// to the user under its derivation witness and zero both bumps.
pub open spec fn close_handled(a: VaultAccounts) -> Result<VaultAccounts, VaultError> {
    if a.vault.lamports == 0 {
        Err(VaultError::Program(VaultErrorCode::VaultAlreadyClosed))
    } else if !vault_witnessed(a) {
        Err(VaultError::MissingAuthority)
    } else {
        match moved(a.vault.lamports, a.user.lamports, a.vault.lamports) {
            Ok((v, u)) => Ok(with_record(with_balances(a, u, v), VaultState { bump: 0, vault_bump: 0 })),
            Err(e) => Err(e),
        }
    }
}

/// `r` reports `outcome`, and the accounts went from `before` to `after`
/// accordingly: to its accounts on success, nowhere on failure.
pub open spec fn settles(
    outcome: Result<VaultAccounts, VaultError>,
    r: Result<(), VaultError>,
    before: VaultAccounts,
    after: VaultAccounts,
) -> bool {
    match outcome {
        Ok(post) => r is Ok && after == post,
        Err(e) => r == Err::<(), VaultError>(e) && after == before,
    }
}

/// Whether the vault's stored bump proves the program's authority over it.
fn vault_witness_holds(vault_state: &StateAccount, vault: &VaultAccount, program_id: &[u8; 32]) -> (r: bool)
    ensures
        r == witnesses(vault_tag(), vault_state.key@, vault_state.state.vault_bump, program_id@, vault.key@),
{
    let tag = vault_tag_bytes();
    check_witness(&tag, &vault_state.key, vault_state.state.vault_bump, program_id, &vault.key)
}

impl Initialize {
    /// Funds the vault to its rent floor and records the bumps.
    pub fn initialize(&mut self, bumps: InitializeBumps) -> (r: Result<(), VaultError>)
        ensures
            settles(initialize_handled(old(self)@, bumps), r, old(self)@, final(self)@),
    {
        let rent_exempt = rent_exempt_minimum(VAULT_SPACE);
        let r = transfer(&mut self.user.lamports, &mut self.vault.lamports, rent_exempt);
        if r.is_err() {
            return r;
        }
        self.vault_state.state.bump = bumps.vault_state;
        self.vault_state.state.vault_bump = bumps.vault;
        Ok(())
    }
}

impl Deposit {
    /// Moves `amount` from the user to the vault.
    pub fn deposit(&mut self, amount: u64) -> (r: Result<(), VaultError>)
        ensures
            settles(deposit_handled(old(self)@, amount), r, old(self)@, final(self)@),
    {
        if !self.user.is_signer {
            return Err(VaultError::AccountNotSigner);
        }
        transfer(&mut self.user.lamports, &mut self.vault.lamports, amount)
    }
}

impl Withdraw {
    /// Moves `amount` from the vault back to the user.
    pub fn withdraw(&mut self, amount: u64) -> (r: Result<(), VaultError>)
        ensures
            settles(withdraw_handled(old(self)@, amount), r, old(self)@, final(self)@),
    {
        let rent_exempt = rent_exempt_minimum(VAULT_SPACE);
        if amount < rent_exempt {
            return Err(VaultError::Program(VaultErrorCode::InsufficientWithdrawalAmount));
        }
        if amount > self.vault.lamports {
            return Err(VaultError::Program(VaultErrorCode::InsufficientVaultBalance));
        }
        if !vault_witness_holds(&self.vault_state, &self.vault, &self.program_id) {
            return Err(VaultError::MissingAuthority);
        }
        transfer(&mut self.vault.lamports, &mut self.user.lamports, amount)
    }
}

impl Close {
    /// Drains the vault to the user and zeroes the record's bumps.
    pub fn close(&mut self) -> (r: Result<(), VaultError>)
        ensures
            settles(close_handled(old(self)@), r, old(self)@, final(self)@),
    {
        if self.vault.lamports == 0 {
            return Err(VaultError::Program(VaultErrorCode::VaultAlreadyClosed));
        }
        if !vault_witness_holds(&self.vault_state, &self.vault, &self.program_id) {
            return Err(VaultError::MissingAuthority);
        }
        let all = self.vault.lamports;
        let r = transfer(&mut self.vault.lamports, &mut self.user.lamports, all);
        if r.is_err() {
            return r;
        }
        self.vault_state.state.bump = 0;
        self.vault_state.state.vault_bump = 0;
        Ok(())
    }
}

} // verus!
