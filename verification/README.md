# pulsartrack

The decision logic of PulsarTrack's Soroban contracts (an advertising
platform on Stellar), written in Verus and proved against its contracts.

Each contract is a plain value with a mathematical view (`XState`, made of
`Map`s and options). Every operation is specified by a spec function on that
view that gives the outcome: the next state, or the reason for refusal. The
executable method is proved to follow it exactly: a refusal leaves the state
untouched, as an aborted Soroban invocation would. Laws that span operations
(invariants kept by every operation, what a later call sees of an earlier
one) are public proof functions next to the contract they speak of.

## Layout

- `src/common.rs`: accounts (`Address`, a number per host address), the
  invocation context (`CallContext`: ledger time, ledger sequence, who
  authorized the call), refusal reasons (`Error`), and the token operations
  (`TokenOp`) an accepted invocation hands back to the host.
- `src/admin.rs`: two-step hand-over of a contract's administrator role.
- One module per contract: `analytics`, `budget`, `governance`, `identity`,
  `kyc`, `multisig`, `payment`, `privacy`, `reputation`, `refund`, `revenue`.
- `tests/`: scenarios on concrete values.
- `app/`: the Soroban host side: ledger reads, authorizations, the numbering
  of host addresses, token-contract and KYC-registry calls, address
  encodings, and carrying out the returned token operations.

## What the host supplies

What only the host can know enters as arguments: the ledger time and the
authorizations (`CallContext`), token balances (`payer_balance`,
`contract_balance`), the KYC registry's answer (`kyc_valid`) and the XDR
encoding of an account's address. Token movements come back as `TokenOp`
lists, to be carried out in order within the same invocation. Hashing
(SHA-256) goes through `soroban-sdk` behind one trusted wrapper in
`src/privacy.rs`; the XDR encoding of texts that feeds it is written out
and proved there.
