# zenith

The screen logic of a terminal system monitor, verified with Verus.

`src/` computes everything the monitor's screen shows and how it reacts to
keys, with contracts that Verus proves:

- `text`: decimal numbers, padding and alignment as Rust's format
  specifiers do them, truncation, joining.
- `bytes`: compact byte counts through the `byte_unit` crate.
- `titles`: the CPU, memory, network and disk panel titles and chart scales.
- `table`: the process table's sort columns, header, column widths, visible
  rows and row cells.
- `cpu_bars`: the layout of the per-CPU bars.
- `timebar`: the top title bar, time ranges and history offsets.
- `detail`: the detail view of a selected process.
- `renderer`: the screen state (`TerminalRenderer`) and the key handling, a
  step function from state and key to new state and command.

`app/` draws on the terminal with `tui` and `termion`, reads the clock with
`chrono`, formats the floating-point readings, and runs the event loop.
