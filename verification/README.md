# block-verifier message tracking

The enclave verifies the transactions of a block and then executes the wasm
(contract execution and instantiation) and node registration messages that they
carry. This crate keeps those messages: `VerifiedWasmMessages` queues the value
of each such message of a transaction in the order in which it stands, hands
them out oldest first, and records the block's height and time.

- `src/tx.rs`: the parts of a transaction that the tracker reads (`Tx`,
  `TxBody`, `Any`) and their models.
- `src/wasm_messages.rs`: the message classification and the queue, with their
  contracts.
- `src/laws.rs`: proved properties across operations (first in, first out;
  two appends equal one; what a transaction queues; independence of the block
  information).
- `app/lib.rs`: the shared tracker behind a mutex, and the conversion from
  decoded protobuf messages.
- `tests/`: scenarios on real encoded transactions and on hand-built ones.
