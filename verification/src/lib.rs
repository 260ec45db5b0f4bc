//! A SOL vault program: each owner has one vault account, derived from the
//! owner's address, into which they deposit lamports and from which they
//! withdraw everything above the rent-exempt minimum.
//!
//! The library holds the program's decisions: how instruction data is
//! decoded, which accounts an instruction accepts, when the vault has to be
//! created, and how a withdrawal moves lamports.

pub mod address;
pub mod error;
pub mod account;
pub mod instructions;
pub mod rent;
pub mod laws;
