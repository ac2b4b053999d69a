# niva_dashboard

Core logic of a Raspberry Pi car dashboard, written in Verus: each function carries a
`requires`/`ensures` contract and Verus proves the code against it.

## Layout

- `src/` — the verified library
  - `alerts/` — alerts and their lifecycle (shown, suppressed, expired), watchdogs that
    fire once a condition has persisted, and the alert manager that purges, polls and
    orders the queue
  - `hardware/` — input identifiers and their configuration names, raw providers,
    moving-average smoothing, debouncing, pin states and GPIO configuration, heading
    source selection, alarm levels
  - `graphics/` — style keys, colour parsing and style-file validation, the scrolling
    text buffer, input events
  - `indicators/` — blink timing, segment-display patterns, alignment choices
  - `clock.rs` — the only place the process clocks are read
- `tests/` — tests of the library on concrete values
- `app/` — the runtime around it: floating-point sensor values and conversions, GPIO
  through rppal, loading of the style and data files with serde, and the alert cycle
  with its log lines

Time-dependent operations come in two forms: one taking the clock reading as an
argument, with an exact contract, and one reading the clock. The latter's contract
holds for whatever instant the clock returned, and measures time from the instant the
object stored (an alert's creation or suppression, a watchdog's or debouncer's timer)
to that reading, as `Instant::duration_since` does.
