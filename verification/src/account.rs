use vstd::prelude::*;

verus! {

/// What the program reads of an account passed to an instruction.
#[derive(Clone, Copy, Debug, PartialEq, Eq)]
pub struct Account {
    /// The account's address.
    pub address: [u8; 32],
    /// The program that owns the account.
    pub owner: [u8; 32],
    /// The account's balance.
    pub lamports: u64,
    /// The length of the account's data.
    pub data_len: usize,
    /// Whether the account signed the transaction.
    pub is_signer: bool,
}

} // verus!
