# artifexprocal

The verified core of a display-calibration toolkit, written in Verus.

`src/` is the library. Its functions carry contracts that Verus proves,
except for a handful of small trusted items (marked `external_body`, or an
`assume_specification`) whose contracts restate what `std`, `uuid`,
`chrono` and `csv` do and are believed, not proved:

- `hal`: driver errors and their messages, meter error classification,
  the pattern generator interface, and the network display / pattern
  generator drivers (address validation, session state).
- `hal_meters`: X-Rite command codes and reply decoding, USB report
  framing and reply polling decisions, the i1 Display Pro and i1 Pro 2
  session state, and the `.ccmx` correction-matrix document.
- `service`: the calibration service state machine (devices, sessions,
  runs, aborts) and the data it exchanges with a front end.
- `calibration`: parsing and labelling of target spaces, tone curves,
  white points, tiers, gamuts and diagrams.
- `reporting`: HTML escaping, timestamps, report routing and the layout of
  the three report pages.
- `module_meter`: the meter module's commands, its table of connected
  meters, the capped measurement history and its CSV export.
- `text`, `ids`, `clock`: decimal/hex formatting, escaping, splitting,
  random identifiers and the current time.

The laws of the library (what a disconnect undoes, what a run leaves
behind, how the history evicts, how escaping composes) are public proof
functions next to the code they speak of.

`app/` holds what Verus does not check: USB I/O through `rusb`, the
floating-point colour math, serialisable copies of the service types and
the front-end commands. `tests/` exercises the library at run time.
