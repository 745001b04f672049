//! The ledger's minimum balance for an account to stay alive.

use vstd::prelude::*;

use anchor_lang::prelude::Rent;

verus! {

/// Bytes that every account costs on top of its data.
pub const ACCOUNT_STORAGE_OVERHEAD: u64 = 128;

/// Default lamports charged per byte and year.
pub const LAMPORTS_PER_BYTE_YEAR: u64 = 3480;

/// Default number of years of rent that an exempt balance covers.
pub const EXEMPTION_YEARS: u64 = 2;

/// The default rent-exempt minimum balance of an account with `data_len` data bytes.
pub open spec fn minimum_balance(data_len: nat) -> nat {
    (EXEMPTION_YEARS * ((ACCOUNT_STORAGE_OVERHEAD + data_len) * LAMPORTS_PER_BYTE_YEAR)) as nat
}

/// Relies on `Rent::default().minimum_balance`: with the default rent,
/// (128 + data_len) * 3480 lamports, times the threshold of 2.0 years. Below
/// the bound required here every step is exact.
#[verifier::external_body]
pub(crate) fn rent_exempt_minimum(data_len: usize) -> (r: u64)
    requires
        data_len <= 1_000_000_000,
    ensures
        r == minimum_balance(data_len as nat),
{
    Rent::default().minimum_balance(data_len)
}

} // verus!
