# pitwall

A read-only monitor of CI runners: containers in a docker slice, native runner
services on the host, jobs on hosted machines, and deployments in flight. It shows
them in a terminal and in a small web portal.

`src/` is the core, verified with Verus. It holds the state that the pollers' reports
are folded into, the projection of that state into rows and banners, the snapshot
that the portal serves, the decisions of the two frontends' loops, and the laws that
tie these together (`src/laws.rs`).

- `app`: the state, the poll reports' effect on it, the tick, the engine
- `history`: bounded series of readings
- `jobs`, `resource`, `vercel`: what the polls report
- `model`: runners, rows, and the join that makes rows
- `snapshot`: the portal's view of a tick, in words
- `tui`: quit keys, the terminal loop, the frame
- `web`: the listening address and the refresh of the portal's snapshot
- `time`: points in time

The core holds no floating point. A CPU percentage or a configured ratio passes
through it as a bit pattern; whether memory is at a warning level is asked of a
function that the caller supplies; a memory reading is a pair of integers whose
quotient is taken where it is shown.

`app/` is the shell: channels, clock, terminal, web server, JSON. The collectors, the
configuration file, the page and the painter come from the program around it.

`tests/` runs the core on concrete values.
