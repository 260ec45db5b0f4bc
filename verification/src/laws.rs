use vstd::prelude::*;

use crate::account::Account;
use crate::error::VaultError;
use crate::rent::{
    max_lamports_per_byte, max_permitted_data_length, rent_accepts, rent_at_rate, rent_minimum,
};
use crate::address::{PROGRAM_ID, SYSTEM_PROGRAM_ID};
use crate::instructions::{
    Deposit, spec_check_vault_address,
    Instruction, Withdraw, WithdrawOutcome, le_u64, spec_deposit, spec_deposit_plan,
    spec_parse_amount, spec_parse_instruction, spec_settle, spec_vault_creation,
    spec_verify_vault_address, spec_withdraw, vault_address_of,
};

verus! {

/// The eight little-endian bytes of `v`, as a client encodes a deposit amount.
pub open spec fn le_bytes(v: u64) -> Seq<u8> {
    seq![
        (v % 256) as u8,
        ((v / 256) % 256) as u8,
        ((v / 65536) % 256) as u8,
        ((v / 16777216) % 256) as u8,
        ((v / 4294967296) % 256) as u8,
        ((v / 1099511627776) % 256) as u8,
        ((v / 281474976710656) % 256) as u8,
        ((v / 72057594037927936) % 256) as u8,
    ]
}

/// A deposit amount encoded in little-endian is read back as that amount;
/// zero is refused.
pub proof fn lemma_amount_encoding_round_trip(amount: u64)
    ensures
        amount != 0 ==> spec_parse_amount(le_bytes(amount)) == Ok::<u64, VaultError>(amount),
        amount == 0 ==> spec_parse_amount(le_bytes(amount)) == Err::<u64, VaultError>(
            VaultError::InvalidInstructionData,
        ),
{
    let b = le_bytes(amount);
    assert((amount % 256) + 256 * ((amount / 256) % 256) + 65536 * ((amount / 65536) % 256)
        + 16777216 * ((amount / 16777216) % 256) + 4294967296 * ((amount / 4294967296) % 256)
        + 1099511627776 * ((amount / 1099511627776) % 256) + 281474976710656 * ((amount
        / 281474976710656) % 256) + 72057594037927936 * ((amount / 72057594037927936) % 256)
        == amount) by (bit_vector);
    assert(le_u64(b) == amount);
}

/// Decoding bytes and encoding the result again gives back the bytes.
proof fn lemma_le_bytes_of_le_u64(b0: u8, b1: u8, b2: u8, b3: u8, b4: u8, b5: u8, b6: u8, b7: u8)
    ensures
        ({
            let v = (b0 + 256 * b1 + 65536 * b2 + 16777216 * b3 + 4294967296 * b4 + 1099511627776
                * b5 + 281474976710656 * b6 + 72057594037927936 * b7) as u64;
            &&& v == b0 + 256 * b1 + 65536 * b2 + 16777216 * b3 + 4294967296 * b4 + 1099511627776
                * b5 + 281474976710656 * b6 + 72057594037927936 * b7
            &&& le_bytes(v) == seq![b0, b1, b2, b3, b4, b5, b6, b7]
        }),
{
    let v = (b0 + 256 * b1 + 65536 * b2 + 16777216 * b3 + 4294967296 * b4 + 1099511627776 * b5
        + 281474976710656 * b6 + 72057594037927936 * b7) as u64;
    assert(b0 + 256 * b1 + 65536 * b2 + 16777216 * b3 + 4294967296 * b4 + 1099511627776 * b5
        + 281474976710656 * b6 + 72057594037927936 * b7 <= u64::MAX);
    assert({
        &&& v % 256 == b0 as u64
        &&& (v / 256) % 256 == b1 as u64
        &&& (v / 65536) % 256 == b2 as u64
        &&& (v / 16777216) % 256 == b3 as u64
        &&& (v / 4294967296) % 256 == b4 as u64
        &&& (v / 1099511627776) % 256 == b5 as u64
        &&& (v / 281474976710656) % 256 == b6 as u64
        &&& (v / 72057594037927936) % 256 == b7 as u64
    }) by (bit_vector)
        requires
            v == b0 + 256 * b1 + 65536 * b2 + 16777216 * b3 + 4294967296 * b4 + 1099511627776 * b5
                + 281474976710656 * b6 + 72057594037927936 * b7,
    ;
    assert(le_bytes(v) =~= seq![b0, b1, b2, b3, b4, b5, b6, b7]);
}

/// Instruction data is accepted as an amount only when it is that amount's
/// little-endian encoding.
pub proof fn lemma_accepted_amount_is_its_encoding(data: Seq<u8>)
    ensures
        spec_parse_amount(data) matches Ok(amount) ==> data == le_bytes(amount),
{
    if data.len() == 8 {
        lemma_le_bytes_of_le_u64(data[0], data[1], data[2], data[3], data[4], data[5], data[6], data[7]);
        assert(data =~= seq![data[0], data[1], data[2], data[3], data[4], data[5], data[6], data[7]]);
    }
}

/// A withdrawal moves lamports from the vault to the owner and creates or
/// destroys none: the two balances add up to what they did before, the vault
/// keeps exactly its rent-exempt minimum, and the owner receives everything
/// above it, which is more than nothing.
pub proof fn lemma_withdraw_conserves_lamports(w: Withdraw, min_balance: u64)
    ensures
        spec_settle(w, min_balance) matches Ok(o) ==> {
            &&& o.owner.lamports + o.vault.lamports == w.owner.lamports + w.vault.lamports
            &&& o.vault.lamports == min_balance
            &&& o.withdrawn == w.vault.lamports - min_balance
            &&& o.withdrawn > 0
            &&& o.owner.lamports == w.owner.lamports + o.withdrawn
        },
{
}

/// A withdrawal fails with `InsufficientFunds` exactly when the vault holds
/// no more than its rent-exempt minimum.
pub proof fn lemma_withdraw_needs_funds_above_minimum(w: Withdraw, min_balance: u64)
    ensures
        (spec_settle(w, min_balance) == Err::<WithdrawOutcome, VaultError>(
            VaultError::InsufficientFunds,
        )) <==> w.vault.lamports <= min_balance,
{
}

/// Right after a withdrawal, a second one under the same rent finds nothing
/// left above the minimum and fails with `InsufficientFunds`.
pub proof fn lemma_second_withdraw_fails(w: Withdraw, min_balance: u64)
    ensures
        spec_settle(w, min_balance) matches Ok(o) ==> spec_settle(
            Withdraw { owner: o.owner, vault: o.vault },
            min_balance,
        ) == Err::<WithdrawOutcome, VaultError>(VaultError::InsufficientFunds),
{
}

/// A withdrawal changes nothing of either account but its balance.
pub proof fn lemma_withdraw_changes_only_balances(w: Withdraw, min_balance: u64)
    ensures
        spec_settle(w, min_balance) matches Ok(o) ==> {
            &&& o.owner.address == w.owner.address && o.owner.owner == w.owner.owner
            &&& o.owner.data_len == w.owner.data_len && o.owner.is_signer == w.owner.is_signer
            &&& o.vault.address == w.vault.address && o.vault.owner == w.vault.owner
            &&& o.vault.data_len == w.vault.data_len && o.vault.is_signer == w.vault.is_signer
        },
{
}

/// Each owner has one vault: an accepted deposit or withdrawal names the
/// vault address derived from its owner's address, the owner signed, and a
/// withdrawal's vault is owned by this program.
pub proof fn lemma_only_the_owner_reaches_the_vault(data: Seq<u8>, accounts: Seq<Account>)
    ensures
        spec_deposit(data, accounts) matches Ok(d) ==> {
            &&& d.owner.is_signer
            &&& vault_address_of(d.owner.address@) == Some((d.vault.address@, d.bump))
        },
        spec_withdraw(accounts) matches Ok(w) ==> {
            &&& w.owner.is_signer
            &&& w.vault.owner@ == PROGRAM_ID@
            &&& vault_address_of(w.owner.address@) matches Some((address, _))
            &&& address == w.vault.address@
        },
{
}

/// Lamports sent to the vault address before the first deposit cannot block
/// the vault's creation: whatever the vault holds, a deposit is accepted or
/// refused alike, and a vault that this program does not own yet is created.
pub proof fn lemma_prefunding_cannot_block_creation(
    data: Seq<u8>,
    accounts: Seq<Account>,
    prefunded: u64,
)
    requires
        accounts.len() >= 2,
    ensures
        ({
            let funded = accounts.update(1, Account { lamports: prefunded, ..accounts[1] });
            &&& (spec_deposit(data, accounts) is Ok) == (spec_deposit(data, funded) is Ok)
            &&& spec_deposit(data, funded) matches Ok(d) ==> (d.vault.owner@ != PROGRAM_ID@
                ==> spec_deposit_plan(d).create_vault is Some)
        }),
{
    let funded = accounts.update(1, Account { lamports: prefunded, ..accounts[1] });
    assert(funded[0] == accounts[0]);
    assert(funded[1].address == accounts[1].address);
    if accounts.len() >= 3 {
        assert(funded[2] == accounts[2]);
    }
}

/// Once the vault is owned by this program, later deposits reuse it and
/// create nothing.
pub proof fn lemma_existing_vault_is_reused(owner: Account, vault: Account, bump: u8)
    requires
        vault.owner@ == PROGRAM_ID@,
    ensures
        spec_vault_creation(owner, vault, bump) is None,
{
}

/// A deposit instruction as a client builds it, the discriminator `0`
/// followed by the amount's little-endian bytes, is read as a deposit of
/// that amount whenever its accounts are accepted.
pub proof fn lemma_deposit_instruction_round_trip(amount: u64, accounts: Seq<Account>)
    requires
        amount != 0,
        accounts.len() >= 3,
        accounts[0].is_signer,
        spec_verify_vault_address(accounts[0].address@, accounts[1].address@) is Ok,
        accounts[2].address@ == SYSTEM_PROGRAM_ID@,
    ensures
        spec_parse_instruction(seq![0u8] + le_bytes(amount), accounts) matches Ok(
            Instruction::Deposit(d),
        ) && d.amount == amount && d.owner == accounts[0] && d.vault == accounts[1],
{
    lemma_amount_encoding_round_trip(amount);
    let data = seq![0u8] + le_bytes(amount);
    assert(data.drop_first() =~= le_bytes(amount));
}

/// The rent-exempt minimum that the rent computation accepts fits in a
/// balance.
pub proof fn lemma_rent_minimum_fits(data_len: usize, lamports_per_byte: u64)
    requires
        rent_accepts(data_len, lamports_per_byte),
    ensures
        rent_minimum(data_len, lamports_per_byte) == rent_at_rate(data_len, lamports_per_byte),
        rent_minimum(data_len, lamports_per_byte) == (128 + data_len) * lamports_per_byte,
{
    assert((128 + data_len) * lamports_per_byte <= (128 + 10485760) * 1759197129867)
        by (nonlinear_arith)
        requires
            data_len <= 10485760,
            lamports_per_byte <= 1759197129867,
    ;
    assert(max_permitted_data_length() == 10485760 && max_lamports_per_byte() == 1759197129867);
}

/// A withdrawal at the cluster's rate leaves the vault at exactly its
/// rent-exempt minimum and gives the owner the rest; it is refused with
/// `InsufficientFunds` when the vault holds no more than that minimum, so a
/// vault never drops below its rent-exempt minimum.
pub proof fn lemma_withdraw_keeps_rent_minimum(w: Withdraw, lamports_per_byte: u64)
    requires
        rent_accepts(w.vault.data_len, lamports_per_byte),
    ensures
        ({
            let minimum = rent_at_rate(w.vault.data_len, lamports_per_byte);
            let r = spec_settle(w, rent_minimum(w.vault.data_len, lamports_per_byte));
            &&& r matches Ok(o) ==> o.vault.lamports == minimum && o.owner.lamports
                == w.owner.lamports + w.vault.lamports - minimum
            &&& w.vault.lamports <= minimum ==> r == Err::<WithdrawOutcome, VaultError>(
                VaultError::InsufficientFunds,
            )
            &&& w.vault.lamports >= minimum ==> (r matches Ok(o) ==> o.vault.lamports >= minimum)
        }),
{
    lemma_rent_minimum_fits(w.vault.data_len, lamports_per_byte);
}

/// After a withdrawal, a second one under the same rent finds nothing above
/// the vault's rent-exempt minimum and fails with `InsufficientFunds`.
pub proof fn lemma_second_withdraw_under_same_rent_fails(w: Withdraw, lamports_per_byte: u64)
    requires
        rent_accepts(w.vault.data_len, lamports_per_byte),
    ensures
        spec_settle(w, rent_minimum(w.vault.data_len, lamports_per_byte)) matches Ok(o)
            ==> spec_settle(
            Withdraw { owner: o.owner, vault: o.vault },
            rent_minimum(o.vault.data_len, lamports_per_byte),
        ) == Err::<WithdrawOutcome, VaultError>(VaultError::InsufficientFunds),
{
}

/// A vault at its rent-exempt minimum that received a deposit of `amount`
/// returns to that minimum on withdrawal, and the owner gets `amount` back.
pub proof fn lemma_deposit_then_withdraw_returns_to_minimum(
    w: Withdraw,
    lamports_per_byte: u64,
    amount: u64,
)
    requires
        rent_accepts(w.vault.data_len, lamports_per_byte),
        amount > 0,
        w.vault.lamports == rent_at_rate(w.vault.data_len, lamports_per_byte) + amount,
        w.owner.lamports + amount <= u64::MAX,
    ensures
        spec_settle(w, rent_minimum(w.vault.data_len, lamports_per_byte)) matches Ok(o) && o.vault.lamports
            == rent_at_rate(w.vault.data_len, lamports_per_byte) && o.owner.lamports
            == w.owner.lamports + amount && o.withdrawn == amount,
{
    lemma_rent_minimum_fits(w.vault.data_len, lamports_per_byte);
}

/// The vault check accepts exactly the owner's derived vault address, and
/// returns that address's bump seed.
pub proof fn lemma_vault_check_accepts_exactly_the_derived_address(
    owner: Seq<u8>,
    vault: Seq<u8>,
    bump: u8,
)
    ensures
        vault_address_of(owner) == Some((vault, bump)) ==> spec_verify_vault_address(owner, vault)
            == Ok::<u8, VaultError>(bump),
        spec_verify_vault_address(owner, vault) == Ok::<u8, VaultError>(bump) ==> vault_address_of(
            owner,
        ) == Some((vault, bump)),
        spec_check_vault_address(vault, Some((vault, bump))) == Ok::<u8, VaultError>(bump),
{
}

/// A deposit by a signing owner into the owner's derived vault, with the
/// system program and a non-zero amount encoded as a client does, is
/// accepted with that owner, vault, amount and the vault's bump seed.
pub proof fn lemma_deposit_accepts_owner_vault_and_amount(
    amount: u64,
    bump: u8,
    accounts: Seq<Account>,
)
    requires
        amount != 0,
        accounts.len() >= 3,
        accounts[0].is_signer,
        vault_address_of(accounts[0].address@) == Some((accounts[1].address@, bump)),
        accounts[2].address@ == SYSTEM_PROGRAM_ID@,
    ensures
        spec_deposit(le_bytes(amount), accounts) == Ok::<Deposit, VaultError>(
            Deposit { owner: accounts[0], vault: accounts[1], amount, bump },
        ),
        spec_parse_instruction(seq![0u8] + le_bytes(amount), accounts) == Ok::<
            Instruction,
            VaultError,
        >(Instruction::Deposit(Deposit { owner: accounts[0], vault: accounts[1], amount, bump })),
{
    lemma_amount_encoding_round_trip(amount);
    let data = seq![0u8] + le_bytes(amount);
    assert(data.drop_first() =~= le_bytes(amount));
}

/// A vault creation is signed with the bump seed it is given, for the owner
/// it is given, with 16 bytes of data owned by this program; it is planned
/// exactly when the program does not own the vault yet.
pub proof fn lemma_vault_creation_signs_for_the_vault(owner: Account, vault: Account, bump: u8)
    ensures
        (spec_vault_creation(owner, vault, bump) is None) <==> vault.owner@ == PROGRAM_ID@,
        spec_vault_creation(owner, vault, bump) matches Some(c) ==> {
            &&& c.bump == bump
            &&& c.owner_address == owner.address
            &&& c.space == 16
            &&& c.program@ == PROGRAM_ID@
        },
{
}

/// A deposit's plan transfers exactly the deposited amount, and creates the
/// vault, with the deposit's owner and bump seed, exactly when the program
/// does not own it yet.
pub proof fn lemma_deposit_plan_transfers_the_amount(d: Deposit)
    ensures
        spec_deposit_plan(d).transfer_lamports == d.amount,
        (spec_deposit_plan(d).create_vault is None) <==> d.vault.owner@ == PROGRAM_ID@,
        spec_deposit_plan(d).create_vault matches Some(c) ==> {
            &&& c.bump == d.bump
            &&& c.owner_address == d.owner.address
            &&& c.space == 16
            &&& c.program@ == PROGRAM_ID@
        },
{
}

/// For an accepted deposit instruction, the plan moves the encoded amount,
/// and a planned creation signs with seeds that derive the vault's address.
pub proof fn lemma_accepted_deposit_plan(data: Seq<u8>, accounts: Seq<Account>)
    ensures
        spec_parse_instruction(data, accounts) matches Ok(Instruction::Deposit(d)) ==> {
            &&& data.len() == 9 && data[0] == 0
            &&& data.drop_first() == le_bytes(spec_deposit_plan(d).transfer_lamports)
            &&& spec_deposit_plan(d).transfer_lamports != 0
            &&& spec_deposit_plan(d).create_vault matches Some(c) ==> vault_address_of(
                c.owner_address@,
            ) == Some((d.vault.address@, c.bump))
        },
{
    if data.len() > 0 && data[0] == 0 {
        lemma_accepted_amount_is_its_encoding(data.drop_first());
    }
}

/// A withdrawal by a signing owner from the owner's derived vault, owned by
/// this program, is accepted, both on its own and when dispatched by the
/// discriminator `1`, whatever follows it.
pub proof fn lemma_withdraw_accepts_owner_and_vault(
    data: Seq<u8>,
    bump: u8,
    accounts: Seq<Account>,
)
    requires
        accounts.len() >= 2,
        accounts[0].is_signer,
        accounts[1].owner@ == PROGRAM_ID@,
        vault_address_of(accounts[0].address@) == Some((accounts[1].address@, bump)),
    ensures
        spec_withdraw(accounts) == Ok::<Withdraw, VaultError>(
            Withdraw { owner: accounts[0], vault: accounts[1] },
        ),
        data.len() >= 1 && data[0] == 1 ==> spec_parse_instruction(data, accounts) == Ok::<
            Instruction,
            VaultError,
        >(Instruction::Withdraw(Withdraw { owner: accounts[0], vault: accounts[1] })),
{
}

/// Data that is empty or starts with a byte other than `0` or `1` is refused
/// as invalid instruction data, whatever the accounts.
pub proof fn lemma_unknown_instruction_is_refused(data: Seq<u8>, accounts: Seq<Account>)
    requires
        data.len() == 0 || data[0] > 1,
    ensures
        spec_parse_instruction(data, accounts) == Err::<Instruction, VaultError>(
            VaultError::InvalidInstructionData,
        ),
{
}

/// What an instruction refuses for: too few accounts, an owner that did not
/// sign, a vault other than the owner's derived vault, a foreign system
/// program, a withdrawal from a vault this program does not own.
pub proof fn lemma_refusals(data: Seq<u8>, accounts: Seq<Account>)
    ensures
        accounts.len() < 3 ==> spec_deposit(data, accounts) == Err::<Deposit, VaultError>(
            VaultError::NotEnoughAccountKeys,
        ),
        accounts.len() < 2 ==> spec_withdraw(accounts) == Err::<Withdraw, VaultError>(
            VaultError::NotEnoughAccountKeys,
        ),
        accounts.len() >= 3 && !accounts[0].is_signer ==> spec_deposit(data, accounts) == Err::<
            Deposit,
            VaultError,
        >(VaultError::MissingRequiredSignature),
        accounts.len() >= 2 && !accounts[0].is_signer ==> spec_withdraw(accounts) == Err::<
            Withdraw,
            VaultError,
        >(VaultError::MissingRequiredSignature),
        accounts.len() >= 2 && accounts[0].is_signer && accounts[1].owner@ != PROGRAM_ID@
            ==> spec_withdraw(accounts) == Err::<Withdraw, VaultError>(
            VaultError::InvalidAccountOwner,
        ),
        accounts.len() >= 3 && accounts[0].is_signer && (vault_address_of(accounts[0].address@) matches Some(
            (address, _),
        ) && address != accounts[1].address@) ==> spec_deposit(data, accounts) == Err::<
            Deposit,
            VaultError,
        >(VaultError::InvalidSeeds),
        accounts.len() >= 2 && accounts[0].is_signer && accounts[1].owner@ == PROGRAM_ID@ && (
        vault_address_of(accounts[0].address@) matches Some((address, _)) && address
            != accounts[1].address@) ==> spec_withdraw(accounts) == Err::<Withdraw, VaultError>(
            VaultError::InvalidSeeds,
        ),
        accounts.len() >= 3 && accounts[0].is_signer && (vault_address_of(accounts[0].address@) matches Some(
            (address, _),
        ) && address == accounts[1].address@) && accounts[2].address@ != SYSTEM_PROGRAM_ID@
            ==> spec_deposit(data, accounts) == Err::<Deposit, VaultError>(
            VaultError::IncorrectProgramId,
        ),
{
}

/// A deposit with valid accounts is refused as invalid instruction data when
/// its amount is not eight bytes or encodes zero.
pub proof fn lemma_bad_amount_is_refused(data: Seq<u8>, bump: u8, accounts: Seq<Account>)
    requires
        accounts.len() >= 3,
        accounts[0].is_signer,
        vault_address_of(accounts[0].address@) == Some((accounts[1].address@, bump)),
        accounts[2].address@ == SYSTEM_PROGRAM_ID@,
        data.len() != 8 || data == le_bytes(0),
    ensures
        spec_deposit(data, accounts) == Err::<Deposit, VaultError>(
            VaultError::InvalidInstructionData,
        ),
{
    lemma_amount_encoding_round_trip(0);
}

} // verus!
