use vstd::prelude::*;

use crate::account::Account;
use crate::address::{
    PROGRAM_ID, SYSTEM_PROGRAM_ID, VAULT_SEED, addresses_equal, find_program_address, program_address,
    vault_seed,
};
use crate::error::VaultError;
use crate::rent::{minimum_balance, rent_accepts, rent_minimum};

verus! {

/// The value of eight bytes read as a little-endian unsigned integer.
pub open spec fn le_u64(b: Seq<u8>) -> int {
    b[0] + 256 * b[1] + 65536 * b[2] + 16777216 * b[3] + 4294967296 * b[4] + 1099511627776 * b[5]
        + 281474976710656 * b[6] + 72057594037927936 * b[7]
}

/// The deposit amount that instruction data encodes: exactly eight bytes, a
/// little-endian integer that is not zero.
pub open spec fn spec_parse_amount(data: Seq<u8>) -> Result<u64, VaultError> {
    if data.len() == 8 && le_u64(data) != 0 {
        Ok(le_u64(data) as u64)
    } else {
        Err(VaultError::InvalidInstructionData)
    }
}

/// Parses a non-zero little-endian `u64` from instruction data.
pub fn parse_amount(data: &[u8]) -> (r: Result<u64, VaultError>)
    ensures
        r == spec_parse_amount(data@),
{
    if data.len() != 8 {
        return Err(VaultError::InvalidInstructionData);
    }
    let amount: u64 = data[0] as u64
        + 256 * (data[1] as u64)
        + 65536 * (data[2] as u64)
        + 16777216 * (data[3] as u64)
        + 4294967296 * (data[4] as u64)
        + 1099511627776 * (data[5] as u64)
        + 281474976710656 * (data[6] as u64)
        + 72057594037927936 * (data[7] as u64);
    if amount == 0 {
        return Err(VaultError::InvalidInstructionData);
    }
    Ok(amount)
}

/// The owner's vault address and its bump seed: the address derived from
/// the seeds `"vault"` and the owner's address under this program.
pub open spec fn vault_address_of(owner: Seq<u8>) -> Option<(Seq<u8>, u8)> {
    program_address(seq![vault_seed(), owner], PROGRAM_ID@)
}

/// Whether `vault` is the derived address in `derived`; its bump seed if so.
pub open spec fn spec_check_vault_address(vault: Seq<u8>, derived: Option<(Seq<u8>, u8)>) -> Result<
    u8,
    VaultError,
> {
    match derived {
        None => Err(VaultError::VaultAddressNotFound),
        Some((expected, bump)) => if vault == expected {
            Ok(bump)
        } else {
            Err(VaultError::InvalidSeeds)
        },
    }
}

/// Whether `vault` is the vault address of `owner`; its bump seed if so.
pub open spec fn spec_verify_vault_address(owner: Seq<u8>, vault: Seq<u8>) -> Result<
    u8,
    VaultError,
> {
    spec_check_vault_address(vault, vault_address_of(owner))
}

/// The view of a derived address and its bump seed.
pub open spec fn derived_view(derived: Option<([u8; 32], u8)>) -> Option<(Seq<u8>, u8)> {
    match derived {
        Some((address, bump)) => Some((address@, bump)),
        None => None,
    }
}

/// Compares `vault_address` with the derived address `derived` (the result
/// of the address search) and returns the bump seed when they match.
pub fn check_vault_address(vault_address: &[u8; 32], derived: Option<([u8; 32], u8)>) -> (r: Result<
    u8,
    VaultError,
>)
    ensures
        r == spec_check_vault_address(vault_address@, derived_view(derived)),
{
    match derived {
        None => Err(VaultError::VaultAddressNotFound),
        Some((expected, bump)) => {
            if addresses_equal(vault_address, &expected) {
                Ok(bump)
            } else {
                Err(VaultError::InvalidSeeds)
            }
        },
    }
}

/// Checks that `vault` is the canonical vault address for `owner` and
/// returns its bump seed.
pub fn verify_vault_address(owner: &Account, vault: &Account) -> (r: Result<u8, VaultError>)
    ensures
        r == spec_verify_vault_address(owner.address@, vault.address@),
{
    let derived = find_program_address(VAULT_SEED.as_slice(), &owner.address, &PROGRAM_ID);
    check_vault_address(&vault.address, derived)
}

/// Size of a vault account's data. The data is unused; the vault only holds
/// lamports.
pub const VAULT_SIZE: usize = 16;

/// A validated deposit: the owner, the owner's vault, the amount and the
/// vault's bump seed.
#[derive(Clone, Copy, Debug, PartialEq, Eq)]
pub struct Deposit {
    pub owner: Account,
    pub vault: Account,
    pub amount: u64,
    pub bump: u8,
}

/// What a deposit instruction with `data` and `accounts` is validated to.
///
/// The accounts are the owner (a signer), the owner's vault and the system
/// program; further accounts are ignored. The checks run in this order, and
/// the first that fails gives the error.
pub open spec fn spec_deposit(data: Seq<u8>, accounts: Seq<Account>) -> Result<Deposit, VaultError> {
    if accounts.len() < 3 {
        Err(VaultError::NotEnoughAccountKeys)
    } else if !accounts[0].is_signer {
        Err(VaultError::MissingRequiredSignature)
    } else {
        match spec_verify_vault_address(accounts[0].address@, accounts[1].address@) {
            Err(e) => Err(e),
            Ok(bump) => if accounts[2].address@ != SYSTEM_PROGRAM_ID@ {
                Err(VaultError::IncorrectProgramId)
            } else {
                match spec_parse_amount(data) {
                    Err(e) => Err(e),
                    Ok(amount) => Ok(
                        Deposit { owner: accounts[0], vault: accounts[1], amount, bump },
                    ),
                }
            },
        }
    }
}

impl Deposit {
    /// The first byte of a deposit instruction's data.
    pub const DISCRIMINATOR: u8 = 0;

    /// Validates the accounts and data of a deposit instruction.
    pub fn try_from(data: &[u8], accounts: &[Account]) -> (r: Result<Deposit, VaultError>)
        ensures
            r == spec_deposit(data@, accounts@),
    {
        if accounts.len() < 3 {
            return Err(VaultError::NotEnoughAccountKeys);
        }
        let owner = accounts[0];
        let vault = accounts[1];
        let system_program = accounts[2];
        if !owner.is_signer {
            return Err(VaultError::MissingRequiredSignature);
        }
        let bump = match verify_vault_address(&owner, &vault) {
            Ok(bump) => bump,
            Err(e) => return Err(e),
        };
        if !addresses_equal(&system_program.address, &SYSTEM_PROGRAM_ID) {
            return Err(VaultError::IncorrectProgramId);
        }
        let amount = match parse_amount(data) {
            Ok(amount) => amount,
            Err(e) => return Err(e),
        };
        Ok(Deposit { owner, vault, amount, bump })
    }
}

/// How the vault is to be created: with `space` bytes of data, owned by
/// `program`, signed for with the seeds `"vault"`, `owner_address` and
/// `[bump]`, and funded up to its rent-exempt minimum by the owner.
#[derive(Clone, Copy, Debug, PartialEq, Eq)]
pub struct VaultCreation {
    pub space: usize,
    pub program: [u8; 32],
    pub owner_address: [u8; 32],
    pub bump: u8,
}

/// The creation that a deposit into `vault` needs: none when the vault is
/// already owned by this program, whatever its balance.
pub open spec fn spec_vault_creation(owner: Account, vault: Account, bump: u8) -> Option<
    VaultCreation,
> {
    if vault.owner@ == PROGRAM_ID@ {
        None
    } else {
        Some(
            VaultCreation {
                space: VAULT_SIZE,
                program: PROGRAM_ID,
                owner_address: owner.address,
                bump,
            },
        )
    }
}

/// Decides whether the vault has to be created before a deposit, and how.
///
/// A vault that this program does not own yet is created even when it
/// already holds lamports, so that sending lamports to the vault address
/// beforehand cannot block its creation.
pub fn ensure_vault_exists(owner: &Account, vault: &Account, bump: u8) -> (r: Option<
    VaultCreation,
>)
    ensures
        r == spec_vault_creation(*owner, *vault, bump),
{
    if addresses_equal(&vault.owner, &PROGRAM_ID) {
        None
    } else {
        Some(VaultCreation { space: VAULT_SIZE, program: PROGRAM_ID, owner_address: owner.address, bump })
    }
}

/// The system program calls a deposit makes, in order: the vault's creation
/// when it is needed, then a transfer of `transfer_lamports` from the owner
/// to the vault.
#[derive(Clone, Copy, Debug, PartialEq, Eq)]
pub struct DepositPlan {
    pub create_vault: Option<VaultCreation>,
    pub transfer_lamports: u64,
}

/// The calls a validated deposit makes.
pub open spec fn spec_deposit_plan(d: Deposit) -> DepositPlan {
    DepositPlan {
        create_vault: spec_vault_creation(d.owner, d.vault, d.bump),
        transfer_lamports: d.amount,
    }
}

impl Deposit {
    /// The system program calls that carry out this deposit.
    pub fn process(self) -> (plan: DepositPlan)
        ensures
            plan == spec_deposit_plan(self),
    {
        let create_vault = ensure_vault_exists(&self.owner, &self.vault, self.bump);
        DepositPlan { create_vault, transfer_lamports: self.amount }
    }
}

/// A validated withdrawal: the owner and the owner's vault.
#[derive(Clone, Copy, Debug, PartialEq, Eq)]
pub struct Withdraw {
    pub owner: Account,
    pub vault: Account,
}

/// What a withdrawal instruction with `accounts` is validated to.
///
/// The accounts are the owner (a signer) and the owner's vault, which this
/// program must own; further accounts are ignored. The checks run in this
/// order, and the first that fails gives the error.
pub open spec fn spec_withdraw(accounts: Seq<Account>) -> Result<Withdraw, VaultError> {
    if accounts.len() < 2 {
        Err(VaultError::NotEnoughAccountKeys)
    } else if !accounts[0].is_signer {
        Err(VaultError::MissingRequiredSignature)
    } else if accounts[1].owner@ != PROGRAM_ID@ {
        Err(VaultError::InvalidAccountOwner)
    } else {
        match spec_verify_vault_address(accounts[0].address@, accounts[1].address@) {
            Err(e) => Err(e),
            Ok(_) => Ok(Withdraw { owner: accounts[0], vault: accounts[1] }),
        }
    }
}

/// The accounts after a withdrawal, and the lamports moved.
#[derive(Clone, Copy, Debug, PartialEq, Eq)]
pub struct WithdrawOutcome {
    pub owner: Account,
    pub vault: Account,
    pub withdrawn: u64,
}

/// A withdrawal that leaves `min_balance` lamports in the vault: everything
/// above it goes to the owner; nothing else of either account changes.
pub open spec fn spec_settle(w: Withdraw, min_balance: u64) -> Result<WithdrawOutcome, VaultError> {
    if w.vault.lamports <= min_balance {
        Err(VaultError::InsufficientFunds)
    } else if w.owner.lamports + (w.vault.lamports - min_balance) > u64::MAX {
        Err(VaultError::ArithmeticOverflow)
    } else {
        Ok(
            WithdrawOutcome {
                owner: Account {
                    lamports: (w.owner.lamports + (w.vault.lamports - min_balance)) as u64,
                    ..w.owner
                },
                vault: Account { lamports: min_balance, ..w.vault },
                withdrawn: (w.vault.lamports - min_balance) as u64,
            },
        )
    }
}

impl Withdraw {
    /// The first byte of a withdrawal instruction's data.
    pub const DISCRIMINATOR: u8 = 1;

    /// Validates the accounts of a withdrawal instruction.
    pub fn try_from(accounts: &[Account]) -> (r: Result<Withdraw, VaultError>)
        ensures
            r == spec_withdraw(accounts@),
    {
        if accounts.len() < 2 {
            return Err(VaultError::NotEnoughAccountKeys);
        }
        let owner = accounts[0];
        let vault = accounts[1];
        if !owner.is_signer {
            return Err(VaultError::MissingRequiredSignature);
        }
        if !addresses_equal(&vault.owner, &PROGRAM_ID) {
            return Err(VaultError::InvalidAccountOwner);
        }
        match verify_vault_address(&owner, &vault) {
            Ok(_) => Ok(Withdraw { owner, vault }),
            Err(e) => Err(e),
        }
    }

    /// Moves every lamport above `min_balance` from the vault to the owner.
    pub fn settle(self, min_balance: u64) -> (r: Result<WithdrawOutcome, VaultError>)
        ensures
            r == spec_settle(self, min_balance),
    {
        let current = self.vault.lamports;
        if current <= min_balance {
            return Err(VaultError::InsufficientFunds);
        }
        let withdraw_amount = current - min_balance;
        let owner_lamports = match self.owner.lamports.checked_add(withdraw_amount) {
            Some(lamports) => lamports,
            None => return Err(VaultError::ArithmeticOverflow),
        };
        Ok(
            WithdrawOutcome {
                owner: Account { lamports: owner_lamports, ..self.owner },
                vault: Account { lamports: min_balance, ..self.vault },
                withdrawn: withdraw_amount,
            },
        )
    }

    /// Carries out the withdrawal at the cluster's rental rate of
    /// `lamports_per_byte`: everything above the vault's rent-exempt minimum
    /// goes to the owner. When the rent computation refuses the vault's data
    /// length or the rate, the withdrawal is refused with `InvalidArgument`.
    pub fn process(self, lamports_per_byte: u64) -> (r: Result<WithdrawOutcome, VaultError>)
        ensures
            rent_accepts(self.vault.data_len, lamports_per_byte) ==> r == spec_settle(
                self,
                rent_minimum(self.vault.data_len, lamports_per_byte),
            ),
            !rent_accepts(self.vault.data_len, lamports_per_byte) ==> r == Err::<
                WithdrawOutcome,
                VaultError,
            >(VaultError::InvalidArgument),
    {
        match minimum_balance(lamports_per_byte, self.vault.data_len) {
            Err(_) => Err(VaultError::InvalidArgument),
            Ok(min_balance) => self.settle(min_balance),
        }
    }
}

/// The program's instructions with their arguments, as its interface
/// description lists them.
///
/// `Deposit` takes the accounts owner (signer, writable), vault (writable) and
/// system program; `Withdraw` takes owner (signer, writable) and vault
/// (writable).
#[derive(Clone, Copy, Debug, PartialEq, Eq)]
pub enum ProgramIx {
    /// Deposit lamports into the vault.
    Deposit { amount: u64 },
    /// Withdraw all lamports above the rent-exempt minimum back to the owner.
    Withdraw {},
}

/// A validated instruction, ready to be carried out.
#[derive(Clone, Copy, Debug, PartialEq, Eq)]
pub enum Instruction {
    Deposit(Deposit),
    Withdraw(Withdraw),
}

/// What instruction `data` and `accounts` are validated to: the first byte
/// of the data selects the instruction, the rest is its argument.
pub open spec fn spec_parse_instruction(data: Seq<u8>, accounts: Seq<Account>) -> Result<
    Instruction,
    VaultError,
> {
    if data.len() == 0 {
        Err(VaultError::InvalidInstructionData)
    } else if data[0] == Deposit::DISCRIMINATOR {
        match spec_deposit(data.drop_first(), accounts) {
            Ok(d) => Ok(Instruction::Deposit(d)),
            Err(e) => Err(e),
        }
    } else if data[0] == Withdraw::DISCRIMINATOR {
        match spec_withdraw(accounts) {
            Ok(w) => Ok(Instruction::Withdraw(w)),
            Err(e) => Err(e),
        }
    } else {
        Err(VaultError::InvalidInstructionData)
    }
}

/// Selects the instruction by the first byte of `data` and validates its
/// accounts and argument.
pub fn parse_instruction(data: &[u8], accounts: &[Account]) -> (r: Result<Instruction, VaultError>)
    ensures
        r == spec_parse_instruction(data@, accounts@),
{
    if data.len() == 0 {
        return Err(VaultError::InvalidInstructionData);
    }
    let discriminator = data[0];
    if discriminator == Deposit::DISCRIMINATOR {
        let rest = vstd::slice::slice_subrange(data, 1, data.len());
        assert(rest@ == data@.drop_first());
        match Deposit::try_from(rest, accounts) {
            Ok(d) => Ok(Instruction::Deposit(d)),
            Err(e) => Err(e),
        }
    } else if discriminator == Withdraw::DISCRIMINATOR {
        match Withdraw::try_from(accounts) {
            Ok(w) => Ok(Instruction::Withdraw(w)),
            Err(e) => Err(e),
        }
    } else {
        Err(VaultError::InvalidInstructionData)
    }
}

} // verus!
