# pasta_td

A terminal tower-defense game with peer-to-peer multiplayer over QUIC,
written as a library verified with Verus and a thin program around it.

## Layout

- `src/` — the verified library. Every function carries a `requires` /
  `ensures` contract that Verus proves.
  - Game: `game`, `rules`, `sim`, `combat`, `commands`, `controls`, `maps`,
    `areas`, `geom`, `kinds`, `menus`, `labels`, `save`, `checkpoint`,
    `replay`.
  - Drawing decisions: `view`, `preview`, `pointer`, `fx` (the effect pool
    with its per-kind caps), `fxplan` (what a frame paints, within its
    primitive budget), `effects`, `assets`.
  - Networking: `net_msg`, `bytes`, `lobby` (the multiplayer lobby as a
    state machine over link events), `link` (framing, heartbeat, peer and
    reconnect book-keeping), `mobility`, `identity` (fingerprints and the
    signed handshake), `netaddr`, `stun`, `stun_basic`, `stun_env`,
    `autotune` (flow-control windows).
  - Outside crates (`ring`, `base64`) and the few std calls Verus has no
    specification for are reached through small trusted wrappers whose
    contracts state what those functions document.
- `tests/` — tests of the library on concrete values.
- `app/` — the program: terminal drawing, input, files, sockets, the async
  QUIC node and the STUN sockets.

