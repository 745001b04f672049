//! The accounts that the instructions read and write, the errors they raise,
//! and the primitive that moves lamports between two balances.

use vstd::prelude::*;

verus! {

/// The record kept at the vault-state address.
#[derive(Clone, Copy, Debug, PartialEq, Eq, Structural)]
pub struct VaultState {
    pub bump: u8,
    pub vault_bump: u8,
}

impl VaultState {
    /// Bytes of the record's fields.
    pub const INIT_SPACE: usize = 2;
}

/// Bytes of the discriminator that prefixes the record.
pub const DISCRIMINATOR_LEN: usize = 8;

/// Data length of the vault-state account: the discriminator, then the record.
pub const VAULT_STATE_SPACE: usize = DISCRIMINATOR_LEN + VaultState::INIT_SPACE;

/// Data length of the vault account: it holds no data.
pub const VAULT_SPACE: usize = 0;

/// Where a vault-state account stands in its lifecycle.
#[derive(Clone, Copy, Debug, PartialEq, Eq, Structural)]
pub enum Lifecycle {
    /// Nothing lives at the address yet.
    Uninitialized,
    /// The record is live and the vault is funded.
    Active,
    /// Retired by `close`; the address may be initialized again.
    Closed,
}

/// The user's own account, which signs the instruction.
#[derive(Clone, Copy, Debug)]
pub struct Wallet {
    pub key: [u8; 32],
    pub lamports: u64,
    pub is_signer: bool,
}

/// The account at the vault-state address.
#[derive(Clone, Copy, Debug)]
pub struct StateAccount {
    pub key: [u8; 32],
    pub lamports: u64,
    pub status: Lifecycle,
    pub state: VaultState,
}

/// The vault: a plain account that holds lamports and no data.
#[derive(Clone, Copy, Debug)]
pub struct VaultAccount {
    pub key: [u8; 32],
    pub lamports: u64,
}

/// The accounts of one user's vault, as every instruction sees them.
pub struct VaultAccounts {
    pub user: Wallet,
    pub vault_state: StateAccount,
    pub vault: VaultAccount,
    pub program_id: [u8; 32],
}

/// The errors that the program raises itself.
#[derive(Clone, Copy, Debug, PartialEq, Eq, Structural)]
pub enum VaultErrorCode {
    InsufficientWithdrawalAmount,
    InsufficientVaultBalance,
    VaultAlreadyClosed,
}

impl VaultErrorCode {
    /// The message that goes with the error.
    pub fn message(&self) -> (r: &'static str) {
        match self {
            VaultErrorCode::InsufficientWithdrawalAmount => "Insufficient withdrawal amount",
            VaultErrorCode::InsufficientVaultBalance => "Insufficient balance in vault",
            VaultErrorCode::VaultAlreadyClosed => "Vault already closed",
        }
    }
}

/// Every way an instruction can fail: the program's own errors, and those
/// of account resolution and of the transfer primitive.
#[derive(Clone, Copy, Debug, PartialEq, Eq, Structural)]
pub enum VaultError {
    Program(VaultErrorCode),
    /// The user did not sign.
    AccountNotSigner,
    /// The vault-state account is not live.
    AccountNotInitialized,
    /// The vault-state account is live already.
    AccountAlreadyInUse,
    /// An account is not at the address its seeds derive.
    ConstraintSeeds,
    /// No bump gives an address off the curve.
    NoViableBump,
    /// A transfer out of the vault lacks a valid derivation witness.
    MissingAuthority,
    /// The source of a transfer holds less than the amount.
    InsufficientFunds,
    /// The destination of a transfer would overflow.
    ArithmeticOverflow,
}

/// What moving `amount` from balance `from` to balance `to` gives.
pub open spec fn moved(from: u64, to: u64, amount: u64) -> Result<(u64, u64), VaultError> {
    if from < amount {
        Err(VaultError::InsufficientFunds)
    } else if to + amount > u64::MAX {
        Err(VaultError::ArithmeticOverflow)
    } else {
        Ok(((from - amount) as u64, (to + amount) as u64))
    }
}

/// Moves `amount` lamports from one balance to another, or changes nothing.
pub fn transfer(from: &mut u64, to: &mut u64, amount: u64) -> (r: Result<(), VaultError>)
    ensures
        match moved(*old(from), *old(to), amount) {
            Ok((f, t)) => r is Ok && *final(from) == f && *final(to) == t,
            Err(e) => r == Err::<(), VaultError>(e) && *final(from) == *old(from) && *final(to) == *old(to),
        },
{
    if *from < amount {
        return Err(VaultError::InsufficientFunds);
    }
    match to.checked_add(amount) {
        Some(t) => {
            *from = *from - amount;
            *to = t;
            Ok(())
        },
        None => Err(VaultError::ArithmeticOverflow),
    }
}

} // verus!
