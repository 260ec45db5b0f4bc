use vstd::prelude::*;

use pinocchio::error::ProgramError;

verus! {

/// The runtime's error type, which the rent computation returns.
#[verifier::external_type_specification]
#[verifier::external_body]
pub struct ExProgramError(ProgramError);

/// Why the program refused an instruction.
#[derive(Debug, PartialEq, Eq)]
pub enum VaultError {
    /// The instruction data is malformed.
    InvalidInstructionData,
    /// Fewer accounts were passed than the instruction needs.
    NotEnoughAccountKeys,
    /// The owner did not sign the transaction.
    MissingRequiredSignature,
    /// The vault account is not the owner's vault address.
    InvalidSeeds,
    /// The account passed as the system program is not the system program.
    IncorrectProgramId,
    /// The vault account is not owned by this program.
    InvalidAccountOwner,
    /// The vault holds nothing above its rent-exempt minimum.
    InsufficientFunds,
    /// The owner's balance would overflow.
    ArithmeticOverflow,
    /// No bump seed derives a vault address for the owner; the program
    /// aborts on this, as no transaction can be served for such an owner.
    VaultAddressNotFound,
    /// The rent computation refused the vault's data length or the rental
    /// rate.
    InvalidArgument,
}

} // verus!
