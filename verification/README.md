# ampd broadcaster

The transaction broadcaster of a Cosmos SDK validator daemon, written in Verus.

- `src/` is the verified library.
  - `msg.rs`: plain values that travel to and from the Cosmos SDK encoders
    (messages and keys as protobuf `Any`, fees, account records).
  - `cosmos.rs`: the calls into `cosmrs` and `cosmos-sdk-proto` (encoding,
    signing, decoding), with the contracts that the rest of the library
    relies on.
  - `helpers.rs`: building the simulated and the signed transaction, and the
    wait for block inclusion as a small state machine with its laws.
  - `broadcaster.rs`: the broadcast of a batch of messages as a state machine
    (estimate gas, price the fee, submit, wait), and the law that the account
    sequence moves by one exactly per successful broadcast.
  - `account_client.rs`: the account record and the reading of the node's
    answers to account queries and simulations.
- `app/` holds the asynchronous side: the Tendermint RPC and gRPC clients, the
  float fee pricing, and the drivers that run the library's state machines.
- `tests/` exercises the library with the real outside crates linked.
