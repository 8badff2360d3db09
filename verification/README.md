# cosmwasm_system

The system layer of a CosmWasm virtual machine, verified with Verus.

Given a VM (anything implementing `vm::CosmwasmVm`), the library

- runs a contract entry point inside a transaction (`system::cosmwasm_system_entrypoint`),
- turns the contract's response into events: the system event of the entry
  point, a `wasm` event with the contract's attributes and `wasm-` events for
  its custom events, each checked, trimmed and tagged with the contract
  address (`sanitize`),
- dispatches the contract's submessages one by one, each under its gas
  checkpoint and in a transaction of its own, and answers them with replies
  as their reply policies ask (`system`),
- guards migrations and admin changes of contracts (`admin`),
- answers bank, wasm and custom queries (`query`).

What is proved. The contracts speak of the VM through models that the
trait declares: the log of calls the system layer made on it (`calls`), each
with what was handed to it, the events it pushed while contract code ran,
and what it answered; the metadata it holds per contract
(`contract_metas`); the address each text parses to (`parsed_address`); the
message being executed and its environment (`current_info`,
`current_env`); and the text by which an error is reported in a reply
(`reported_text`). Over them the contracts state which calls an operation
makes and in which order, what it hands to each (addresses, messages,
funds, gas checkpoints, metadata, replies), how each answer becomes the
result, that a transaction is committed exactly where the work it wraps
succeeded and rolled back where it failed, which metadata an admin
operation writes, and which events come out: exactly the system and
contract events of the run, then every event the submessages and replies
pushed, in order. The event sanitizing, the admin checks and the fold over
a response's submessages are proved exactly: the fold's calls split into
one round per submessage, each opening a transaction, dispatching the
message under its gas checkpoint, committing or rolling back, and replying
as the policy asks. The run's data follows CosmWasm's semantics: it starts
as the response's data, and only data a reply returns replaces it. The
entry points that take a hook in place of the contract call state the same
over what the hook's own contract allows it to answer and leave behind.

What is trusted. A VM implementation must keep the trait's contracts over
these models. An implementation verified with Verus defines the models and
proves them; any other is taken at its word. Errors are identified as
system errors only as far as the VM's error type specifies its conversion
from `SystemError`.

Layout:

- `src/types.rs` — plain-value models of the CosmWasm messages, responses and queries.
- `src/error.rs` — `SystemError` and the contract metadata.
- `src/text.rs` — trimming, prefixes and decimal notation over `Seq<char>`.
- `src/events.rs`, `src/sanitize.rs` — system events and the checks on contract events.
- `src/vm.rs` — the `CosmwasmVm` trait an embedder implements.
- `src/admin.rs`, `src/system.rs`, `src/query.rs` — the operations.
- `src/laws.rs` — properties of the layer as a whole, proved.
- `app/lib.rs` — conversions from and to `cosmwasm_std`, serde encodings,
  and the entry points that serialize a typed message first.
