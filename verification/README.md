# zevq

The DASE stress-testing engine: it generates seeded "traps" (snippets of
SQL and Rust with a known defect), judges a target program against them,
scores and grades the run, and serves all of this over HTTP.

- `src/` is the verified library (Verus): text utilities, the static
  analysis heuristics, the trap generators and engine, judging, grading,
  reports and the decisions behind the HTTP endpoints. `src/outside.rs`
  holds the trusted contracts of the `std` and outside-crate calls, and
  `src/random.rs` those of the seeded generator, whose draws are named by
  its seed and the draws made before them.
- `app/` is the service around it: `main`, environment, routes, JSON
  types, the syn syntax walk and the floating-point score.
- `tests/` runs the library on concrete values.
