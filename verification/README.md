# anchor_programs

The account checks and instruction logic of three small Solana programs,
verified with Verus:

- a whitelist transfer hook: a whitelist with an authority, entries that the
  authority adds and removes, a hook that lets a transfer through only when
  the owner of the source has an entry, and the creation of a mint whose
  transfers call the hook;
- a randomness consumer: a request for randomness to the randomness program,
  and the callback that stores the number drawn from it.

Layout:

- `src/` is the verified library. `key`, `error`, `account` and `pda` hold
  addresses, errors, the checks on accounts and program addresses;
  `whitelist`, `transfer_hook`, `mint_token` and `randomness` hold the
  instructions. Each instruction has a `try_accounts` whose result is stated
  by an `accounts_check` spec function, and the instruction itself.
- `app/` reads runtime accounts into the library's values, makes the calls
  into other programs that the library decides on, and writes results back.
- `tests/` runs the library on concrete accounts.
