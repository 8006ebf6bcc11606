# orderbook_rs (time utilities)

A small verified library: `utils::time::current_time_millis` returns the wall
clock as milliseconds since the Unix epoch, or 0 when the clock is set before
the epoch.

- `src/utils/time.rs` reads the clock through a thin trusted wrapper around
  `SystemTime::elapsed` on `UNIX_EPOCH`, and turns the reading into a `u64` in
  verified code (`millis_since_epoch`, `millis_or_zero`), whose contracts state
  the result exactly for every reading.
- `tests/` runs the library on concrete durations and on the live clock.
