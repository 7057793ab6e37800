# ledger_node

A proof-of-work ledger and the node that runs it, with the ledger and the node's decisions
verified in Verus.

- `src/` is the library: transactions, blocks and what they hash, mining, the chain and its pool,
  wallets, and what a node decides as connections, blocks and transactions come in. `laws.rs`
  states what holds of the ledger as a whole.
- `app/` is the node program around it: sockets, tasks, JSON and the terminal. Amounts are
  single-precision numbers there; in the library they are the texts that a block hashes.
- `tests/` runs the library on concrete values.
