# rusty_speed_test

A terminal-first download/upload speed test against fast.com.

- `src/` is the verified library (Verus): the fast.com token and server-list
  logic (`api`, with pattern matching through the `regex` crate in
  `pattern`), the runner's stage machine (`app`), the download and upload
  workers' decisions (`download`, `upload`), the terminal UI's key handling
  and integer text (`tui`), and decimal rendering (`text`).
- `app/` is the program around it: command-line arguments, HTTP requests,
  tokio tasks and timers, the terminal UI drawing, and the floating-point
  throughput figures.
- `tests/` runs the library on concrete inputs.
