# juno_scan

Walks a Juno chain downwards, twenty heights at a time, through a Tendermint
RPC node, and reports every execution of a contract in the blocks where the
Loop NFT marketplace contract is executed.

- `src/` is the verified library (Verus):
  - `decimal.rs`, `rpc.rs`: the request addresses and the node's answers;
  - `model.rs`: plain models of the protobuf transaction and messages, with their views;
  - `codec.rs`: the calls into the protobuf and base64 crates, with their contracts;
  - `tx.rs`: transactions and the decoding of their messages;
  - `report.rs`: which blocks are asked for and what is reported of a block;
  - `scan.rs`: the scan as a state machine from answer to next request;
  - `laws.rs`: what holds across calls of the scan and the decoders.
- `app/` is the program: HTTP, JSON and printing around the library.
- `tests/` runs the library on concrete transactions and answers.
