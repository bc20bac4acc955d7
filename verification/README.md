# microfips (verified core)

The logic of a minimal FIPS leaf node, written in Verus and proved against
its contracts: every function in `src/` carries `requires`/`ensures` that
Verus checks, and the properties that span several calls are stated and
proved as `lemma_*` proof functions next to the code they are about.

Layout:

- `src/node.rs`, `src/framing.rs`, `src/handshake.rs`, `src/steady.rs` — link
  framing, node timing, the crossing-handshake tiebreak and timeout ladder,
  and the decisions of an established link (timers, key-epoch cascade, rekey
  pacing, grace windows).
- `src/fsp_session.rs`, `src/fsp_app.rs` — FSP session pacing and the
  application adapter that serves the service layer over FSP.
- `src/service.rs`, `src/router.rs`, `src/client.rs`, `src/demo.rs` — the
  request/response envelope, routing, local client and HTTP mapping, and the
  demo service.
- `src/mmp/` — sender/receiver report state, burst-loss tracking, report
  intake and link statistics.
- `src/peer_table.rs` — the ESP-NOW routing table (on `heapless::Vec`).
- `src/l2cap*` — BLE L2CAP SDU framing and capability flags.
- `src/board.rs`, `src/keylog.rs`, `src/throughput.rs`, `src/scripted.rs` —
  board status logic, the keylog line, throughput tests and the scripted
  test transport.
- `app/` — the HTTP gateway (picoserve on tokio) and async glue; not verified.
- `tests/` — behavioural tests run against the compiled library.
