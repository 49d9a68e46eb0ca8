# sol_parser_sdk

Verified decoders for Solana DEX data: Raydium CLMM accounts (`AmmConfig`,
`PoolState`, `TickArrayState`), Raydium CLMM events from `Program data:` log
lines and from inner instructions, the discriminator lookup table that maps
event discriminators of several protocols to their kinds, and the pure parts
of the ShredStream client (reconnect policy, account-index resolution).

Layout of `src/`:

- `bytes.rs` – little-endian field readers and the spec of a little-endian value.
- `types.rs`, `events.rs` – keys, metadata, account snapshots and decoded events.
- `accounts/raydium_clmm.rs` – account decoders.
- `logs/` – program-data extraction (base64), Raydium CLMM and pump-fees
  event decoders, the discriminator lookup table and the kind-to-decoder
  dispatch.
- `instr/` – routing of inner instructions by their 16-byte discriminators.
- `shredstream/` – reconnect policy, instruction account resolution and the
  guard that picks out pump-fees `update_fee_shares` outer instructions.
- `laws.rs` – properties that tie the tables and decoders together.

Raydium CLMM event bodies and the pump-fees `UpdateAdmin` body are decoded
field by field (`logs/raydium_clmm.rs`, `logs/pump_fees.rs`). Event bodies of
the other kinds are routed to their kind and returned undecoded, with their
bytes.

`app/` holds the subscription loop that drives the reconnect policy around a
streaming session supplied by the caller.
