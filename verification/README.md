# state_bridge_relay

A relay that watches the `WorldIDIdentityManager` on layer 1 for new Merkle
roots and calls `propagateRoot()` on each configured state bridge, so that the
bridged World ID contracts on other chains follow the canonical root.

- `src/` is the verified library (Verus): configuration defaults, the
  tx-sitter requests and polling, contract calldata, and the state machines of
  the root listener and of each bridge, with the laws they obey in
  `src/laws.rs`.
- `app/` is the program around it: command line, configuration loading,
  JSON-RPC and HTTP calls, and the loops that perform each action the state
  machines return and feed back the outcome.
- `tests/` exercise the library on concrete values.
