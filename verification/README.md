# pinocchio_vault

A minimal SOL vault program for Solana. Each owner has one vault account, at
the program derived address of the seeds `"vault"` and the owner's address;
the owner deposits lamports into it and withdraws everything above the
rent-exempt minimum.

Instruction data starts with a one-byte discriminator: `0` is `Deposit`
(followed by a non-zero little-endian `u64` amount; accounts: owner as signer,
vault, system program), `1` is `Withdraw` (accounts: owner as signer, vault).

## Layout

- `src/` is the verified library (Verus):
  - `instructions.rs`: decoding of instruction data, validation of the
    accounts of each instruction, the deposit's plan of system program calls,
    and the withdrawal's settlement of balances;
  - `address.rs`: the program's and system program's addresses, the vault
    seed, and the program-derived-address search;
  - `rent.rs`: the rent-exempt minimum;
  - `account.rs`, `error.rs`: the account model and the refusals;
  - `laws.rs`: properties of the program proved over the contracts.
- `app/` is the on-chain entrypoint: it turns the runtime's accounts into the
  library's model, performs the system program calls the library plans, and
  writes the balances it settles on.
- `tests/` runs the library, including the program's scenarios on a small
  simulated ledger.
