# astrokit

Exact bookkeeping for astronomical event searches, verified with Verus.

Instants are TAI nanoseconds and durations signed nanosecond counts. The integer
decisions of the event searches have contracts: search options, scan cadence,
evaluation budgets, crossing and endpoint decisions, duplicate merging, event
ordering, horizon visibility, twilight, lunar-eclipse visibility windows,
solar-term and lunar-phase calendars, cycle measurements, eclipse seed windows,
eclipse contact records and their order, central-path transitions and eclipse
classifications. The floating-point side of a search (ephemeris evaluation,
root and extremum refinement, angles and distances) is not part of the library:
its results are handed in as values or carried as type parameters and never
inspected.

Layout:

- `src/time.rs` — instants, durations and closed intervals.
- `src/ephem.rs` — bodies and spherical body figures.
- `src/frame/` — frame metadata, epoch-bound rotations, transforms and states.
- `src/event/` — search options, evidence, search decisions, event records and
  their ordering, calendars, cycles and eclipse bookkeeping.
- `tests/` — executable tests of the library.
- `app/` — displayable error types and the floating-point eclipse-disk and
  Earth-orientation models, which stay outside the verified library.
