# pq_stark_bench

The verified core of a benchmark harness that measures post-quantum and
classical signature schemes natively and inside zkVM guests.

## Layout

- `src/` is the library, verified with Verus:
  - `tx_format` — per-transaction byte accounting under each publication
    model, and the canonical signing preimage.
  - `calendar`, `text`, `time` — civil dates from day counts, zero-padded
    decimal rendering, RFC 3339 timestamps and run identifiers.
  - `stats` — nearest-rank percentiles, the timing summary and the
    budgeted measurement loop.
  - `schemes` — the iteration budget, the canonical message and one
    measurement per scheme; `ed25519`, `ecdsa`, `ml_dsa`, `slh_dsa` and
    `falcon` hold the calls into the signature crates.
  - `guest` — signature batches for the zkVM guests and the guests'
    verification tally.
  - `zkvm`, `zkvm_run`, `risc0_host`, `sp1_host` — the records, labels and
    checks of the zkVM host programs.
  - `env`, `probe`, `strings` — the hardware class, CI detection, host
    label, and reading what the machine probes print.
  - `report` — the rows of a native results file.
- `tests/` runs the library on concrete values.
- `app/` is the native benchmark runner: argument handling, environment
  probes, serialization and file output.
