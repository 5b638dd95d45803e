# open_eqms

A Verus library for the Open-EQMS Runtime: shared data contracts, the Business
Event Log, the Object Runtime, an exact-rule Security authorization provider,
the Query Engine core with its canonical encodings, Process Definition rules,
and the demonstration's asset model, registration steps, input handling and
text rendering. Each public function states its behaviour as a Verus contract
and is verified against it.

Layout:

- `src/` — the verified library, one module per concern (`event_*`, `object_*`,
  `query_*`, `process_*`, `security`, `contracts`, `collections`, `demo*`,
  `asset_model`, `presentation`, `timeline`).
- `tests/` — executable tests of the library.
- `app/` — the command-line entry point and the floating-point companions
  (number sums and means, parsing and rendering) that the library takes
  through its traits.

Storage, identity generation, authorization, number arithmetic and query
sources are traits the caller supplies. Where such a provider decides an
outcome, the library's contracts state what holds whatever it answered, and a
separate public function states exactly what follows from each answer.
