# dual_wire

A verified implementation of the Dual Wire Interface (DWI) used by
variable-speed compressor inverters: a five-byte frame
`[id][cmd][lo][hi][ck]` whose bytes sum to zero modulo 256.

Layout:

- `src/wire.rs` — frame arithmetic shared by all devices (checksum,
  little-endian words, two's complement), and the proof that any single-bit
  error breaks the checksum.
- `src/compressor/` — generic request/response core: `Command` codec and
  response judgement, error types, and `Transaction`, the verified step
  function that decides each step of a serial transaction.
- `src/dwi/` — the DWI inverter command table, frame validation, status
  decoding, and the judgement of a timed exchange.
- `src/embraco.rs`, `src/secop.rs` — request tables and status/fault decoding
  of the Embraco CF10B inverter and the Secop CCD compressor.
- `app/lib.rs` — the asynchronous I/O (`embedded-io-async`,
  `embedded-hal-async`, `embassy-futures`) that performs the steps the
  library decides.
- `tests/` — scenario tests.
