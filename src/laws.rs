//! What holds of every run of the instructions, proved over their outcomes.

use vstd::prelude::*;

use crate::accounts::{VaultAccounts, VaultError, VaultErrorCode};
use crate::address::vault_addresses;
use crate::instructions::with_balances;
use crate::program::{close_outcome, deposit_outcome, resolution_error, withdraw_outcome};
use crate::rent::minimum_balance;

verus! {

/// A deposit of `amount` followed by a withdrawal of the same amount leaves
/// every account as it was; once the deposit succeeded, the withdrawal
/// succeeds too whenever `amount` reaches the vault's rent floor.
pub proof fn deposit_then_withdraw_conserves(a: VaultAccounts, amount: u64, b: VaultAccounts)
    requires
        deposit_outcome(a, amount) == Ok::<VaultAccounts, VaultError>(b),
    ensures
        amount >= minimum_balance(0) ==> withdraw_outcome(b, amount) == Ok::<VaultAccounts, VaultError>(a),
        withdraw_outcome(b, amount) is Ok ==> withdraw_outcome(b, amount) == Ok::<VaultAccounts, VaultError>(a),
        b.user.lamports + b.vault.lamports == a.user.lamports + a.vault.lamports,
{
    assert(resolution_error(b) == resolution_error(a));
    let u = (a.user.lamports - amount) as u64;
    let v = (a.vault.lamports + amount) as u64;
    assert(b == with_balances(a, u, v));
    assert(with_balances(b, a.user.lamports, a.vault.lamports) == a);
}

/// A withdrawal below the vault's rent floor fails with
/// `InsufficientWithdrawalAmount`; one that succeeds takes exactly `amount`
/// out of the vault, and leaves at least the floor there whenever the vault
/// held `amount` plus the floor.
pub proof fn withdraw_respects_floor(a: VaultAccounts, amount: u64)
    ensures
        resolution_error(a) is None && amount < minimum_balance(0)
            ==> withdraw_outcome(a, amount) == Err::<VaultAccounts, VaultError>(
                VaultError::Program(VaultErrorCode::InsufficientWithdrawalAmount),
            ),
        withdraw_outcome(a, amount) is Ok ==> {
            &&& amount >= minimum_balance(0)
            &&& withdraw_outcome(a, amount)->Ok_0.vault.lamports == a.vault.lamports - amount
            &&& a.vault.lamports >= amount + minimum_balance(0)
                ==> withdraw_outcome(a, amount)->Ok_0.vault.lamports >= minimum_balance(0)
        },
{
}

/// A withdrawal of more than the vault holds never succeeds; past the floor
/// check it fails with `InsufficientVaultBalance`.
pub proof fn withdraw_bounded_by_balance(a: VaultAccounts, amount: u64)
    requires
        amount > a.vault.lamports,
    ensures
        withdraw_outcome(a, amount) is Err,
        resolution_error(a) is None && amount >= minimum_balance(0)
            ==> withdraw_outcome(a, amount) == Err::<VaultAccounts, VaultError>(
                VaultError::Program(VaultErrorCode::InsufficientVaultBalance),
            ),
{
}

/// Closing an empty vault fails with `VaultAlreadyClosed`; a close that
/// succeeds leaves the vault and the record with no lamports and both bumps
/// zero.
pub proof fn close_empties(a: VaultAccounts)
    ensures
        resolution_error(a) is None && a.vault.lamports == 0
            ==> close_outcome(a) == Err::<VaultAccounts, VaultError>(
                VaultError::Program(VaultErrorCode::VaultAlreadyClosed),
            ),
        close_outcome(a) is Ok ==> {
            &&& close_outcome(a)->Ok_0.vault.lamports == 0
            &&& close_outcome(a)->Ok_0.vault_state.lamports == 0
            &&& close_outcome(a)->Ok_0.vault_state.state.bump == 0
            &&& close_outcome(a)->Ok_0.vault_state.state.vault_bump == 0
            &&& close_outcome(a)->Ok_0.user.lamports
                == a.user.lamports + a.vault.lamports + a.vault_state.lamports
        },
{
}

/// Deriving a user's two addresses depends on the user and the program
/// alone: two derivations from the same identity agree on both addresses
/// and both bumps.
pub proof fn derivation_is_repeatable(
    user: Seq<u8>,
    program: Seq<u8>,
    first: Option<(Seq<u8>, u8, Seq<u8>, u8)>,
    second: Option<(Seq<u8>, u8, Seq<u8>, u8)>,
)
    requires
        first == vault_addresses(user, program),
        second == vault_addresses(user, program),
    ensures
        first == second,
{
}

} // verus!
