# x402 Crypto Micropayments

Per-call crypto micropayments for MCP tools, speaking the x402 protocol, with the
decisions proved in Verus.

A call to a priced tool without a payment credential is answered with an HTTP 402
challenge: network, asset, amount and recipient. A call with a credential is
verified by an x402 facilitator before the tool runs. There is no session and no
state between calls.

## What is proved

The rules are in `src/gate.rs`, as functions on mathematical values. Every function
of `src/plugin.rs` is proved to follow them, and `src/laws.rs` proves what they add
up to. Among it:

- a call that has to be paid for goes ahead exactly when its credential has a
  payload and a signature, and the facilitator answers HTTP 200 with `valid: true`;
- nobody is asked about a credential without payload or signature;
- the facilitator is asked for exactly what the challenge required;
- a tool that is not priced, and a call that is no tool call, is never charged;
- a configuration that is present and malformed loads nothing;
- a plugin that charges has a facilitator, a recipient and valid charges.

A charge is valid when it parses as a finite number greater than zero.
`src/charge.rs` decides that on the decimal text, exactly at both ends of the range
of double-precision numbers.

## What is trusted

`serde_json` reads and builds JSON values. The functions that call it are in
`src/json.rs`, each with the contract that is believed of it. Which texts
`serde_json::from_slice` accepts, and what they hold, is not described there; it has
a name, `parsed_json`.

## Layout

- `src/`: the verified library
- `tests/`: its tests
- `app/`: the operator's configuration as JSON, HTTP calls, metrics and traces, and
  the plugin as the gateway loads it
