use pinocchio_vault::account::Account;
use pinocchio_vault::address::{PROGRAM_ID, SYSTEM_PROGRAM_ID, VAULT_SEED};
use pinocchio_vault::error::VaultError;
use pinocchio_vault::instructions::{
    check_vault_address, ensure_vault_exists, parse_amount, parse_instruction, verify_vault_address, Deposit,
    DepositPlan, Instruction, ProgramIx, VaultCreation, Withdraw, WithdrawOutcome, VAULT_SIZE,
};
use solana_address::Address;

const SOL: u64 = 1_000_000_000;
/// Rent-exempt minimum of a vault at the default rate: (128 + 16) * 6960.
const VAULT_RENT_MIN: u64 = 1_002_240;

/// The default rental rate of a cluster, in lamports per byte.
const DEFAULT_LAMPORTS_PER_BYTE: u64 = 6960;

fn vault_of(owner: &[u8; 32]) -> ([u8; 32], u8) {
    let (address, bump) =
        Address::find_program_address(&[b"vault", owner], &Address::new_from_array(PROGRAM_ID));
    (address.to_bytes(), bump)
}

fn owner_account(seed: u8, lamports: u64) -> Account {
    Account {
        address: [seed; 32],
        owner: SYSTEM_PROGRAM_ID,
        lamports,
        data_len: 0,
        is_signer: true,
    }
}

fn vault_account(owner: &Account, program_owned: bool, lamports: u64) -> Account {
    Account {
        address: vault_of(&owner.address).0,
        owner: if program_owned { PROGRAM_ID } else { SYSTEM_PROGRAM_ID },
        lamports,
        data_len: if program_owned { VAULT_SIZE } else { 0 },
        is_signer: false,
    }
}

fn system_program() -> Account {
    Account {
        address: SYSTEM_PROGRAM_ID,
        owner: [7; 32],
        lamports: 1,
        data_len: 0,
        is_signer: false,
    }
}

fn deposit_data(amount: u64) -> Vec<u8> {
    amount.to_le_bytes().to_vec()
}

#[test]
fn program_id_matches_declared_address() {
    let declared: Address = "G9S9ELuKARYok1H8QguVSZ5mu7VoT3FfRBqeFL3vK3uW".parse().unwrap();
    assert_eq!(declared.to_bytes(), PROGRAM_ID);
}

#[test]
fn system_program_id_matches_system_program() {
    assert_eq!(pinocchio_system::ID.to_bytes(), SYSTEM_PROGRAM_ID);
}

#[test]
fn vault_seed_is_vault() {
    assert_eq!(&VAULT_SEED, b"vault");
    assert_eq!(VAULT_SIZE, 16);
}

#[test]
fn parse_amount_reads_little_endian() {
    assert_eq!(
        parse_amount(&[1, 2, 3, 4, 5, 6, 7, 8]),
        Ok(0x0807_0605_0403_0201)
    );
    assert_eq!(parse_amount(&SOL.to_le_bytes()), Ok(SOL));
    assert_eq!(parse_amount(&u64::MAX.to_le_bytes()), Ok(u64::MAX));
}

#[test]
fn parse_amount_rejects_zero_and_wrong_lengths() {
    assert_eq!(
        parse_amount(&0u64.to_le_bytes()),
        Err(VaultError::InvalidInstructionData)
    );
    assert_eq!(
        parse_amount(&SOL.to_le_bytes()[..7]),
        Err(VaultError::InvalidInstructionData)
    );
    assert_eq!(parse_amount(&[1; 9]), Err(VaultError::InvalidInstructionData));
    assert_eq!(parse_amount(&[]), Err(VaultError::InvalidInstructionData));
}

#[test]
fn amount_encoding_round_trips() {
    for amount in [1u64, 255, 256, 5000, SOL, 10 * SOL, u64::MAX - 1, u64::MAX] {
        assert_eq!(parse_amount(&amount.to_le_bytes()), Ok(amount));
    }
}

#[test]
fn check_vault_address_compares_with_derived() {
    assert_eq!(check_vault_address(&[5; 32], Some(([5; 32], 254))), Ok(254));
    assert_eq!(
        check_vault_address(&[5; 32], Some(([6; 32], 254))),
        Err(VaultError::InvalidSeeds)
    );
    assert_eq!(
        check_vault_address(&[5; 32], None),
        Err(VaultError::VaultAddressNotFound)
    );
}

#[test]
fn vault_address_is_derived_from_owner() {
    let owner = owner_account(1, 10 * SOL);
    let vault = vault_account(&owner, false, 0);
    let (expected, bump) = vault_of(&owner.address);
    assert_ne!(expected, owner.address);
    assert_eq!(verify_vault_address(&owner, &vault), Ok(bump));

    let other = owner_account(2, 10 * SOL);
    assert_eq!(
        verify_vault_address(&other, &vault),
        Err(VaultError::InvalidSeeds)
    );
    // The owner's own address is not its vault.
    assert_eq!(
        verify_vault_address(&owner, &owner),
        Err(VaultError::InvalidSeeds)
    );
}

#[test]
fn deposit_accepts_owner_vault_and_amount() {
    let owner = owner_account(1, 10 * SOL);
    let vault = vault_account(&owner, false, 0);
    let accounts = [owner, vault, system_program()];
    let deposit = Deposit::try_from(&deposit_data(SOL), &accounts).unwrap();
    assert_eq!(deposit.owner, owner);
    assert_eq!(deposit.vault, vault);
    assert_eq!(deposit.amount, SOL);
    assert_eq!(deposit.bump, vault_of(&owner.address).1);
}

#[test]
fn deposit_ignores_extra_accounts() {
    let owner = owner_account(1, 10 * SOL);
    let vault = vault_account(&owner, false, 0);
    let accounts = [owner, vault, system_program(), owner_account(9, 1)];
    assert!(Deposit::try_from(&deposit_data(SOL), &accounts).is_ok());
}

#[test]
fn deposit_checks_accounts_before_data() {
    let mut owner = owner_account(1, 10 * SOL);
    owner.is_signer = false;
    let vault = vault_account(&owner, false, 0);
    assert_eq!(
        Deposit::try_from(&deposit_data(0), &[owner, vault, system_program()]),
        Err(VaultError::MissingRequiredSignature)
    );
    assert_eq!(
        Deposit::try_from(&deposit_data(0), &[owner, vault]),
        Err(VaultError::NotEnoughAccountKeys)
    );
    let signer = owner_account(1, 10 * SOL);
    let mut fake = system_program();
    fake.address = [3; 32];
    assert_eq!(
        Deposit::try_from(&deposit_data(0), &[signer, vault, fake]),
        Err(VaultError::IncorrectProgramId)
    );
}

#[test]
fn first_deposit_creates_vault() {
    let owner = owner_account(1, 10 * SOL);
    let vault = vault_account(&owner, false, 0);
    let deposit = Deposit::try_from(&deposit_data(SOL), &[owner, vault, system_program()]).unwrap();
    let plan = deposit.process();
    assert_eq!(
        plan,
        DepositPlan {
            create_vault: Some(VaultCreation {
                space: VAULT_SIZE,
                program: PROGRAM_ID,
                owner_address: owner.address,
                bump: vault_of(&owner.address).1,
            }),
            transfer_lamports: SOL,
        }
    );
}

#[test]
fn second_deposit_reuses_vault() {
    let owner = owner_account(1, 10 * SOL);
    let vault = vault_account(&owner, true, VAULT_RENT_MIN + SOL);
    let deposit = Deposit::try_from(&deposit_data(SOL), &[owner, vault, system_program()]).unwrap();
    assert_eq!(
        deposit.process(),
        DepositPlan {
            create_vault: None,
            transfer_lamports: SOL
        }
    );
    assert_eq!(ensure_vault_exists(&owner, &vault, deposit.bump), None);
}

#[test]
fn withdraw_accepts_owner_and_program_vault() {
    let owner = owner_account(1, 10 * SOL);
    let vault = vault_account(&owner, true, VAULT_RENT_MIN + SOL);
    assert_eq!(
        Withdraw::try_from(&[owner, vault]),
        Ok(Withdraw { owner, vault })
    );
}

#[test]
fn settle_moves_everything_above_minimum() {
    let owner = owner_account(1, 7 * SOL);
    let vault = vault_account(&owner, true, VAULT_RENT_MIN + 2 * SOL);
    let w = Withdraw { owner, vault };
    let outcome = w.settle(VAULT_RENT_MIN).unwrap();
    assert_eq!(outcome.withdrawn, 2 * SOL);
    assert_eq!(outcome.vault.lamports, VAULT_RENT_MIN);
    assert_eq!(outcome.owner.lamports, 9 * SOL);
    assert_eq!(
        outcome.owner.lamports + outcome.vault.lamports,
        owner.lamports + vault.lamports
    );
    assert_eq!(outcome.vault.address, vault.address);
    assert_eq!(outcome.owner.address, owner.address);
}

#[test]
fn second_withdraw_finds_nothing() {
    let owner = owner_account(1, 7 * SOL);
    let vault = vault_account(&owner, true, VAULT_RENT_MIN + 2 * SOL);
    let outcome = Withdraw { owner, vault }.settle(VAULT_RENT_MIN).unwrap();
    let again = Withdraw {
        owner: outcome.owner,
        vault: outcome.vault,
    };
    assert_eq!(
        again.settle(VAULT_RENT_MIN),
        Err(VaultError::InsufficientFunds)
    );
}

#[test]
fn settle_refuses_empty_vault_and_overflow() {
    let owner = owner_account(1, u64::MAX);
    let vault = vault_account(&owner, true, VAULT_RENT_MIN);
    assert_eq!(
        Withdraw { owner, vault }.settle(VAULT_RENT_MIN),
        Err(VaultError::InsufficientFunds)
    );
    let vault = vault_account(&owner, true, VAULT_RENT_MIN - 1);
    assert_eq!(
        Withdraw { owner, vault }.settle(VAULT_RENT_MIN),
        Err(VaultError::InsufficientFunds)
    );
    let vault = vault_account(&owner, true, VAULT_RENT_MIN + 1);
    assert_eq!(
        Withdraw { owner, vault }.settle(VAULT_RENT_MIN),
        Err(VaultError::ArithmeticOverflow)
    );
    let owner = owner_account(1, u64::MAX - 1);
    assert_eq!(
        Withdraw { owner, vault }.settle(VAULT_RENT_MIN).map(|o| o.owner.lamports),
        Ok(u64::MAX)
    );
}

#[test]
fn withdraw_process_keeps_rent_minimum() {
    let owner = owner_account(1, 7 * SOL);
    let vault = vault_account(&owner, true, VAULT_RENT_MIN + 2 * SOL);
    let outcome = Withdraw { owner, vault }.process(DEFAULT_LAMPORTS_PER_BYTE).unwrap();
    assert_eq!(
        outcome,
        WithdrawOutcome {
            owner: Account {
                lamports: 9 * SOL,
                ..owner
            },
            vault: Account {
                lamports: VAULT_RENT_MIN,
                ..vault
            },
            withdrawn: 2 * SOL,
        }
    );
}

#[test]
fn withdraw_process_refuses_oversized_account() {
    let owner = owner_account(1, 7 * SOL);
    let mut vault = vault_account(&owner, true, 100 * SOL);
    vault.data_len = 10 * 1024 * 1024 + 1;
    assert_eq!(
        Withdraw { owner, vault }.process(DEFAULT_LAMPORTS_PER_BYTE),
        Err(VaultError::InvalidArgument)
    );
}

#[test]
fn withdraw_process_refuses_excessive_rate() {
    let owner = owner_account(1, 7 * SOL);
    let vault = vault_account(&owner, true, 100 * SOL);
    assert_eq!(
        Withdraw { owner, vault }.process(1_759_197_129_868),
        Err(VaultError::InvalidArgument)
    );
    // The largest accepted rate on the largest accepted account.
    let mut vault = vault_account(&owner, true, u64::MAX);
    vault.data_len = 10 * 1024 * 1024;
    let outcome = Withdraw { owner, vault }.process(1_759_197_129_867).unwrap();
    assert_eq!(outcome.vault.lamports, 18_446_744_073_706_816_896);
}

#[test]
fn withdraw_process_uses_the_given_rate() {
    let owner = owner_account(1, 7 * SOL);
    let vault = vault_account(&owner, true, 3 * SOL);
    let outcome = Withdraw { owner, vault }.process(2 * DEFAULT_LAMPORTS_PER_BYTE).unwrap();
    assert_eq!(outcome.vault.lamports, 2 * VAULT_RENT_MIN);
    assert_eq!(outcome.withdrawn, 3 * SOL - 2 * VAULT_RENT_MIN);
    assert_eq!(outcome.owner.lamports, 10 * SOL - 2 * VAULT_RENT_MIN);
}

#[test]
fn instruction_selected_by_first_byte() {
    let owner = owner_account(1, 10 * SOL);
    let vault = vault_account(&owner, true, VAULT_RENT_MIN + SOL);
    let accounts = [owner, vault, system_program()];

    let mut data = vec![Deposit::DISCRIMINATOR];
    data.extend_from_slice(&SOL.to_le_bytes());
    match parse_instruction(&data, &accounts) {
        Ok(Instruction::Deposit(d)) => assert_eq!(d.amount, SOL),
        other => panic!("unexpected {:?}", other),
    }

    assert_eq!(
        parse_instruction(&[Withdraw::DISCRIMINATOR], &accounts),
        Ok(Instruction::Withdraw(Withdraw { owner, vault }))
    );
    // Trailing bytes after the withdrawal discriminator are ignored.
    assert!(parse_instruction(&[1, 9, 9], &accounts).is_ok());

    assert_eq!(
        parse_instruction(&[], &accounts),
        Err(VaultError::InvalidInstructionData)
    );
    assert_eq!(
        parse_instruction(&[2], &accounts),
        Err(VaultError::InvalidInstructionData)
    );
    assert_eq!(
        parse_instruction(&[0, 1, 0, 0, 0, 0, 0, 0], &accounts),
        Err(VaultError::InvalidInstructionData)
    );
}

#[test]
fn program_ix_lists_instructions() {
    let ixs = [ProgramIx::Deposit { amount: SOL }, ProgramIx::Withdraw {}];
    assert_eq!(ixs[0], ProgramIx::Deposit { amount: SOL });
    assert_ne!(ixs[0], ixs[1]);
}
