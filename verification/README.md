# bmw_toolbox_lib

Verified core of a read-only vehicle diagnostic toolbox (BMW F-Series first).

- `src/protocol/uds.rs` — UDS client (services 0x10, 0x19, 0x22, 0x3E): request
  encodings, positive/negative response checks and payload decoding, each
  method specified against the exchange it performs on its transport.
- `src/transport/` — the `Transport` trait (with a `step` relation describing
  each exchange), the in-memory `MockTransport`, and `MockEcu`, a simulated ECU
  whose answers are given by the spec function `ecu_answer`.
- `src/protocol/roundtrip.rs` — proofs that the client reads back what the
  simulated ECU holds (DIDs, DTCs, sessions), directly and through the mock
  transport.
- `src/command_bus.rs`, `src/module.rs` — typed command bus (dispatch gives
  back an output the handler registered last for the command type may return)
  and compile-time module registry.
- `src/erased.rs` — the `Box<dyn Any>` / `TypeId` layer the bus stores its
  handlers behind.
- `src/db/` — SQLite connection and migration runner (through `rusqlite`).
  Every statement handed to SQLite yields a receipt (`db::statements`); a run's
  receipts are specified against the transcript the ledger's answers call for.
- `src/domain/` — manufacturer / platform / vehicle model.
- `app/` — the Tauri desktop shell (not verified).

Times are whole milliseconds (`u64`).
