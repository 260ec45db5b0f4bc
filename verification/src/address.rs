use vstd::prelude::*;

verus! {

/// The address of this program (`G9S9ELuKARYok1H8QguVSZ5mu7VoT3FfRBqeFL3vK3uW`).
pub const PROGRAM_ID: [u8; 32] = [
    225, 8, 96, 222, 244, 29, 31, 222, 153, 102, 59, 160, 177, 8, 123, 51,
    165, 73, 75, 38, 7, 74, 130, 16, 103, 134, 133, 228, 197, 65, 19, 77,
];

/// The address of the system program (all zero bytes).
pub const SYSTEM_PROGRAM_ID: [u8; 32] = [
    0, 0, 0, 0, 0, 0, 0, 0, 0, 0, 0, 0, 0, 0, 0, 0,
    0, 0, 0, 0, 0, 0, 0, 0, 0, 0, 0, 0, 0, 0, 0, 0,
];

/// The seed that, together with the owner's address, derives an owner's vault.
pub const VAULT_SEED: [u8; 5] = [118, 97, 117, 108, 116];

/// The vault seed as a sequence: the bytes of `"vault"`.
pub open spec fn vault_seed() -> Seq<u8> {
    seq![118u8, 97u8, 117u8, 108u8, 116u8]
}

/// The program derived address of `seeds` under `program_id`, with its bump
/// seed, as `Address::try_find_program_address` computes it; `None` when no
/// bump seed gives an address off the curve or the seeds are too many or too
/// long.
pub uninterp spec fn program_address(seeds: Seq<Seq<u8>>, program_id: Seq<u8>) -> Option<(Seq<u8>, u8)>;

/// Searches the program derived address of the two seeds `first` and
/// `second` under `program_id`.
///
/// Calls `Address::try_find_program_address` (solana-address). The contract
/// only claims that the result is the one the function computes from its
/// arguments, named `program_address`; the hash and curve arithmetic behind
/// it are not stated.
#[verifier::external_body]
pub(crate) fn find_program_address(first: &[u8], second: &[u8; 32], program_id: &[u8; 32]) -> (r:
    Option<([u8; 32], u8)>)
    ensures
        match r {
            Some((address, bump)) => program_address(seq![first@, second@], program_id@) == Some(
                (address@, bump),
            ),
            None => program_address(seq![first@, second@], program_id@) is None,
        },
{
    let program = pinocchio::Address::new_from_array(*program_id);
    match pinocchio::Address::try_find_program_address(&[first, second.as_slice()], &program) {
        Some((address, bump)) => Some((address.to_bytes(), bump)),
        None => None,
    }
}

/// Whether two addresses are the same.
pub fn addresses_equal(a: &[u8; 32], b: &[u8; 32]) -> (r: bool)
    ensures
        r == (a@ == b@),
{
    let mut i: usize = 0;
    while i < 32
        invariant
            0 <= i <= 32,
            a@.len() == 32,
            b@.len() == 32,
            forall|j: int| 0 <= j < i ==> a@[j] == b@[j],
        decreases 32 - i,
    {
        if a[i] != b[i] {
            return false;
        }
        i = i + 1;
    }
    assert(a@ =~= b@);
    true
}

} // verus!
