# shell_executor

Runs shell commands behind a spinner and a `[ ✓ ] label` status line, with
timeouts, custom success criteria, quiet and succinct modes, log files,
parallel groups and an interactive pane view. The `x` command line tool
wraps it.

The crate is split in two:

- `src/` is the library, verified with Verus. It holds every decision and
  every piece of text: how a finished run is judged (status and propagated
  exit code), what to do while a command runs (kill on timeout, collect when
  it exits, redraw the spinner), the status lines, indented output bodies,
  group frames and summaries, log entries, the pane view's key handling and
  layout arithmetic, and the command line's exit-code rules. Contracts are
  stated over `Seq<char>` views and spec functions; `src/laws.rs` states the
  properties that span several functions.
- `app/` is the `x` binary: argument parsing, spawning processes, reading
  pipes, PTYs, the terminal, and appending to log files. It hands what it
  observed (a `Ran`, the child states, key events) to the library and
  prints or writes what comes back.

Modules of the library:

| module     | contents |
|------------|----------|
| `text`     | decimal and clock rendering, UTF-8 widths, labels, trimming, lines, bounded capture |
| `status`   | `RunStatus`, `RunReport`, outcomes, aggregation, exit codes, icons |
| `render`   | bracketed status lines and log heads |
| `clock`    | the log timestamp |
| `command`  | `ShellCommand`, the run watcher, judging and concluding a run |
| `parallel` | `ParallelGroup`, child states, frames, summary blocks, group logs |
| `tui`      | key encoding, navigation, pane sizes, the pane view's state machine |
| `cli`      | validator and exit-code rules of `x` |
| `laws`     | cross-function properties, proved |
