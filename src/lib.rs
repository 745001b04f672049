//! A custodial vault: each user owns a program-derived holding account
//! ("vault") and a companion record ("vault state") holding the bumps that
//! prove the program's authority over the vault.

pub mod address;
pub mod accounts;
pub mod rent;
pub mod instructions;
pub mod program;
pub mod laws;
