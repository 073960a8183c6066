# sophia

A terminal ping monitor whose statistics, key handling and screen contents are
verified with Verus.

- `src/` is the verified library:
  - `stats`: the running figures (current, minimum, maximum, mean, jitter,
    loss) and the two bounded windows (the newest 100 probes, the newest 1000
    answers). A `PingStats` is viewed as the sequence of probes fed to it, and
    every figure is specified as a function of that sequence.
  - `display`: colours by latency and loss, the probe log newest first, the
    chart frame and the figures of each summary panel.
  - `keys`: the screens and what each key press does.
  - `layout`: where the panels go, through ratatui's layout solver.
  - `pacing`: the next sequence number and the wait between probes.
  - `clock`: the `HH:MM:SS` label from chrono.
- `app/` is the program: argument parsing, name resolution, the ICMP probe
  task, the terminal, and drawing.

Round trips are whole microseconds and probe times milliseconds since start.
The mean is the sum of the round trips divided by their number, rounded to
the nearest microsecond;
the jitter is kept in sixteenths of a microsecond and moves a sixteenth of
the way towards each new difference between consecutive answers (it loses a
sixteenth of itself, rounded down, and gains the difference), and is reported
rounded to the nearest microsecond; the loss is in millionths
of the probes sent, rounded up but kept below a million while any probe was
answered, so that it is 0 exactly when nothing was lost and a million exactly
when nothing was answered. Milliseconds and percentages with decimals
are printed by `app/`.
