use vstd::prelude::*;

use pinocchio::error::ProgramError;
use pinocchio::sysvars::rent::Rent;

verus! {

/// The largest account data length the rent computation accepts (10 MiB).
pub open spec fn max_permitted_data_length() -> int {
    10485760
}

/// The largest rental rate, in lamports per byte, the rent computation accepts.
pub open spec fn max_lamports_per_byte() -> int {
    1759197129867
}

/// Bytes that an account occupies beyond its data.
pub open spec fn account_storage_overhead() -> int {
    128
}

/// The rent-exempt minimum of an account with `data_len` bytes of data at a
/// rate of `lamports_per_byte`.
pub open spec fn rent_at_rate(data_len: usize, lamports_per_byte: u64) -> int {
    (account_storage_overhead() + data_len) * lamports_per_byte
}

/// The rent-exempt minimum as a balance; meaningful where the rent
/// computation accepts the data length and rate, where it fits in a `u64`.
pub open spec fn rent_minimum(data_len: usize, lamports_per_byte: u64) -> u64 {
    rent_at_rate(data_len, lamports_per_byte) as u64
}

/// Whether the rent computation accepts an account with `data_len` bytes of
/// data at a rate of `lamports_per_byte`.
pub open spec fn rent_accepts(data_len: usize, lamports_per_byte: u64) -> bool {
    data_len <= max_permitted_data_length() && lamports_per_byte <= max_lamports_per_byte()
}

/// The rent-exempt minimum balance of an account with `data_len` bytes of
/// data at the cluster's rate of `lamports_per_byte`.
///
/// Calls `Rent::try_minimum_balance` (pinocchio) on the `Rent` whose rate is
/// `lamports_per_byte`, built with `Rent::from_bytes` from the rate's bytes
/// as the rent sysvar lays them out. The contract claims what the source
/// shows: the computation succeeds exactly when the data length is at most
/// 10 MiB and the rate at most 1_759_197_129_867, and its result is
/// `(128 + data_len) * lamports_per_byte`. Which error it returns otherwise
/// is not stated.
#[verifier::external_body]
pub(crate) fn minimum_balance(lamports_per_byte: u64, data_len: usize) -> (r: Result<
    u64,
    ProgramError,
>)
    ensures
        r is Ok <==> rent_accepts(data_len, lamports_per_byte),
        r matches Ok(balance) ==> balance == rent_at_rate(data_len, lamports_per_byte),
{
    Rent::from_bytes(&lamports_per_byte.to_ne_bytes())?.try_minimum_balance(data_len)
}

} // verus!
