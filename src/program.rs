//! The program's entry points: resolve and check the accounts as the host
//! would, run the handler, and commit every change or none.

use vstd::prelude::*;

use crate::accounts::{
    moved, transfer, Lifecycle, StateAccount, VaultAccount, VaultAccounts, VaultError, VaultState, Wallet,
    VAULT_STATE_SPACE,
};
use crate::address::{
    check_witness, derive_address, derived, keys_equal, state_tag, state_tag_bytes, vault_tag,
    vault_tag_bytes, witnesses,
};
use crate::instructions::{
    close_handled, deposit_handled, initialize_handled, settles, withdraw_handled, Close, Deposit,
    Initialize, InitializeBumps, Withdraw,
};
use crate::rent::{minimum_balance, rent_exempt_minimum};

verus! {

/// The program's id.
pub const ID: [u8; 32] = [
    199, 41, 97, 203, 38, 208, 53, 161, 103, 94, 193, 109, 201, 185, 22, 116,
    114, 193, 202, 160, 66, 111, 98, 153, 148, 37, 25, 117, 183, 246, 206, 172,
];

/// The program's id.
pub fn id() -> (r: [u8; 32])
    ensures
        r == ID,
{
    ID
}

/// Why the accounts of a live vault do not resolve, if they do not: the user
/// must sign, the record must be live, and each account must sit at the
/// address that its stored bump derives.
pub open spec fn resolution_error(a: VaultAccounts) -> Option<VaultError> {
    if !a.user.is_signer {
        Some(VaultError::AccountNotSigner)
    } else if a.vault_state.status != Lifecycle::Active {
        Some(VaultError::AccountNotInitialized)
    } else if !witnesses(state_tag(), a.user.key@, a.vault_state.state.bump, a.program_id@, a.vault_state.key@) {
        Some(VaultError::ConstraintSeeds)
    } else if !witnesses(vault_tag(), a.vault_state.key@, a.vault_state.state.vault_bump, a.program_id@, a.vault.key@) {
        Some(VaultError::ConstraintSeeds)
    } else {
        None
    }
}

/// Lamports that bring a balance up to the record's rent floor.
pub open spec fn record_rent_due(lamports: u64) -> u64 {
    let floor = minimum_balance(VAULT_STATE_SPACE as nat);
    if lamports < floor { (floor - lamports) as u64 } else { 0 }
}

/// The record created: rent paid by the user, live, bumps zero.
pub open spec fn record_created(a: VaultAccounts) -> Result<VaultAccounts, VaultError> {
    match moved(a.user.lamports, a.vault_state.lamports, record_rent_due(a.vault_state.lamports)) {
        Ok((u, s)) => Ok(VaultAccounts {
            user: Wallet { lamports: u, ..a.user },
            vault_state: StateAccount {
                lamports: s,
                status: Lifecycle::Active,
                state: VaultState { bump: 0, vault_bump: 0 },
                ..a.vault_state
            },
            ..a
        }),
        Err(e) => Err(e),
    }
}

/// The record retired: its lamports go to the user and its address is free.
pub open spec fn record_retired(a: VaultAccounts) -> Result<VaultAccounts, VaultError> {
    match moved(a.vault_state.lamports, a.user.lamports, a.vault_state.lamports) {
        Ok((s, u)) => Ok(VaultAccounts {
            user: Wallet { lamports: u, ..a.user },
            vault_state: StateAccount { lamports: s, status: Lifecycle::Closed, ..a.vault_state },
            ..a
        }),
        Err(e) => Err(e),
    }
}

/// What `initialize` does to the accounts: the user signs; both addresses
/// are found by the bump search; the record must not be live; the record
/// is created and then the handler runs.
pub open spec fn initialize_outcome(a: VaultAccounts) -> Result<VaultAccounts, VaultError> {
    if !a.user.is_signer {
        Err(VaultError::AccountNotSigner)
    } else {
        match derived(state_tag(), a.user.key@, a.program_id@) {
            None => Err(VaultError::NoViableBump),
            Some((state_key, state_bump)) => {
                if state_key != a.vault_state.key@ {
                    Err(VaultError::ConstraintSeeds)
                } else if a.vault_state.status == Lifecycle::Active {
                    Err(VaultError::AccountAlreadyInUse)
                } else {
                    match derived(vault_tag(), a.vault_state.key@, a.program_id@) {
                        None => Err(VaultError::NoViableBump),
                        Some((vault_key, vault_bump)) => {
                            if vault_key != a.vault.key@ {
                                Err(VaultError::ConstraintSeeds)
                            } else {
                                match record_created(a) {
                                    Ok(c) => initialize_handled(c, InitializeBumps { vault_state: state_bump, vault: vault_bump }),
                                    Err(e) => Err(e),
                                }
                            }
                        },
                    }
                }
            },
        }
    }
}

/// What `deposit` does to the accounts.
pub open spec fn deposit_outcome(a: VaultAccounts, amount: u64) -> Result<VaultAccounts, VaultError> {
    match resolution_error(a) {
        Some(e) => Err(e),
        None => deposit_handled(a, amount),
    }
}

/// What `withdraw` does to the accounts.
pub open spec fn withdraw_outcome(a: VaultAccounts, amount: u64) -> Result<VaultAccounts, VaultError> {
    match resolution_error(a) {
        Some(e) => Err(e),
        None => withdraw_handled(a, amount),
    }
}

/// What `close` does to the accounts: the handler, then the record retired.
pub open spec fn close_outcome(a: VaultAccounts) -> Result<VaultAccounts, VaultError> {
    match resolution_error(a) {
        Some(e) => Err(e),
        None => match close_handled(a) {
            Ok(h) => record_retired(h),
            Err(e) => Err(e),
        },
    }
}

/// Checks the accounts of a live vault.
fn resolve(user: &Wallet, vault_state: &StateAccount, vault: &VaultAccount, program_id: &[u8; 32]) -> (r: Result<(), VaultError>)
    ensures
        match resolution_error(
            VaultAccounts { user: *user, vault_state: *vault_state, vault: *vault, program_id: *program_id },
        ) {
            Some(e) => r == Err::<(), VaultError>(e),
            None => r is Ok,
        },
{
    if !user.is_signer {
        return Err(VaultError::AccountNotSigner);
    }
    match vault_state.status {
        Lifecycle::Active => {},
        _ => {
            return Err(VaultError::AccountNotInitialized);
        },
    }
    let state_tag = state_tag_bytes();
    if !check_witness(&state_tag, &user.key, vault_state.state.bump, program_id, &vault_state.key) {
        return Err(VaultError::ConstraintSeeds);
    }
    let vault_tag = vault_tag_bytes();
    if !check_witness(&vault_tag, &vault_state.key, vault_state.state.vault_bump, program_id, &vault.key) {
        return Err(VaultError::ConstraintSeeds);
    }
    Ok(())
}

/// Resolves the accounts of `Initialize`, creating the record, and returns
/// the bumps found.
fn resolve_initialize(accounts: &mut Initialize) -> (r: Result<InitializeBumps, VaultError>)
    ensures
        match r {
            Ok(bumps) => {
                &&& record_created(old(accounts)@) == Ok::<VaultAccounts, VaultError>(final(accounts)@)
                &&& derived(state_tag(), old(accounts).user.key@, old(accounts).program_id@)
                    == Some((old(accounts).vault_state.key@, bumps.vault_state))
                &&& derived(vault_tag(), old(accounts).vault_state.key@, old(accounts).program_id@)
                    == Some((old(accounts).vault.key@, bumps.vault))
                &&& initialize_outcome(old(accounts)@) == initialize_handled(final(accounts)@, bumps)
                &&& witnesses(state_tag(), old(accounts).user.key@, bumps.vault_state, old(accounts).program_id@, old(accounts).vault_state.key@)
                &&& witnesses(vault_tag(), old(accounts).vault_state.key@, bumps.vault, old(accounts).program_id@, old(accounts).vault.key@)
            },
            Err(e) => initialize_outcome(old(accounts)@) == Err::<VaultAccounts, VaultError>(e) && final(accounts)@ == old(accounts)@,
        },
{
    if !accounts.user.is_signer {
        return Err(VaultError::AccountNotSigner);
    }
    let state_tag = state_tag_bytes();
    let state_bump = match derive_address(&state_tag, &accounts.user.key, &accounts.program_id) {
        None => {
            return Err(VaultError::NoViableBump);
        },
        Some((k, b)) => {
            if !keys_equal(&k, &accounts.vault_state.key) {
                return Err(VaultError::ConstraintSeeds);
            }
            b
        },
    };
    match accounts.vault_state.status {
        Lifecycle::Active => {
            return Err(VaultError::AccountAlreadyInUse);
        },
        _ => {},
    }
    let vault_tag = vault_tag_bytes();
    let vault_bump = match derive_address(&vault_tag, &accounts.vault_state.key, &accounts.program_id) {
        None => {
            return Err(VaultError::NoViableBump);
        },
        Some((k, b)) => {
            if !keys_equal(&k, &accounts.vault.key) {
                return Err(VaultError::ConstraintSeeds);
            }
            b
        },
    };
    let floor = rent_exempt_minimum(VAULT_STATE_SPACE);
    let due = if accounts.vault_state.lamports < floor { floor - accounts.vault_state.lamports } else { 0 };
    let r = transfer(&mut accounts.user.lamports, &mut accounts.vault_state.lamports, due);
    match r {
        Err(e) => {
            return Err(e);
        },
        Ok(()) => {},
    }
    accounts.vault_state.status = Lifecycle::Active;
    accounts.vault_state.state = VaultState { bump: 0, vault_bump: 0 };
    Ok(InitializeBumps { vault_state: state_bump, vault: vault_bump })
}

/// Creates the user's vault: the record at the "state" address, and the
/// vault at the "vault" address funded to its rent floor. The record's bumps
/// then prove both addresses, so the vault resolves for every other
/// instruction.
pub fn initialize(accounts: &mut Initialize) -> (r: Result<(), VaultError>)
    ensures
        settles(initialize_outcome(old(accounts)@), r, old(accounts)@, final(accounts)@),
        r is Ok ==> resolution_error(final(accounts)@) is None,
{
    let before = *accounts;
    match resolve_initialize(accounts) {
        Err(e) => Err(e),
        Ok(bumps) => {
            let r = accounts.initialize(bumps);
            if r.is_err() {
                *accounts = before;
            }
            r
        },
    }
}

/// Pays `amount` from the user into the vault.
pub fn deposit(accounts: &mut Deposit, amount: u64) -> (r: Result<(), VaultError>)
    ensures
        settles(deposit_outcome(old(accounts)@, amount), r, old(accounts)@, final(accounts)@),
{
    let checked = resolve(&accounts.user, &accounts.vault_state, &accounts.vault, &accounts.program_id);
    match checked {
        Err(e) => Err(e),
        Ok(()) => accounts.deposit(amount),
    }
}

/// Pays `amount` from the vault back to the user.
pub fn withdraw(accounts: &mut Withdraw, amount: u64) -> (r: Result<(), VaultError>)
    ensures
        settles(withdraw_outcome(old(accounts)@, amount), r, old(accounts)@, final(accounts)@),
{
    let checked = resolve(&accounts.user, &accounts.vault_state, &accounts.vault, &accounts.program_id);
    match checked {
        Err(e) => Err(e),
        Ok(()) => accounts.withdraw(amount),
    }
}

/// Drains the vault to the user and retires the record, whose lamports go
/// to the user too.
pub fn close(accounts: &mut Close) -> (r: Result<(), VaultError>)
    ensures
        settles(close_outcome(old(accounts)@), r, old(accounts)@, final(accounts)@),
{
    let checked = resolve(&accounts.user, &accounts.vault_state, &accounts.vault, &accounts.program_id);
    match checked {
        Err(e) => {
            return Err(e);
        },
        Ok(()) => {},
    }
    let before = *accounts;
    let r = accounts.close();
    if r.is_err() {
        return r;
    }
    let rest = accounts.vault_state.lamports;
    let t = transfer(&mut accounts.vault_state.lamports, &mut accounts.user.lamports, rest);
    if t.is_err() {
        *accounts = before;
        return t;
    }
    accounts.vault_state.status = Lifecycle::Closed;
    Ok(())
}

} // verus!
