# atlas_payroll

Verified accounting core of a Solana payroll program that streams salaries
per second and parks idle employer USDC in a Kamino lending reserve.

- `src/` — the library, verified with Verus: the vault's liability ledger
  (`protocol`), employee accrual (`staff`), the Kamino reserve layout and pool
  arithmetic (`reserve`), instruction data for Kamino (`kamino`, `codec`),
  integer reinterpretations (`numeric`), and the decision steps of every
  instruction (`instructions`). Each step returns what the runtime must do
  next (a transfer or a Kamino call) and takes back what was observed.
- `app/` — the Anchor program around the library: account validation, clock
  reads, token transfers and cross-program invocations.
- `tests/` — executable tests of the library.
