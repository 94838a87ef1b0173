# oracle

Verified core of the Oracle field-solver desktop application.

- `src/` — the library, checked by Verus:
  - `types` — coil, field, slice-axis and solver-status types, log labels;
  - `gruve` — how the HTTP bridge maps request paths to frontend assets,
    refuses paths that would leave the build directory, and picks content
    types;
  - `hypothesis` — slugs, ids and file names of saved runs, and their
    newest-first ordering;
  - `grid` — flat-index arithmetic of the vertex grid, slices, boundary
    vertices, dispatch sizes;
  - `solve_plan` — which stages a solve runs and which warnings it reports;
  - `coil_paths` — sample counts of the traced wire paths;
  - `solver_client` — messages and start-up polling of the solver server;
  - `text` — character helpers.
- `app/` — the application around it: serde types, floating-point coil
  geometry and field post-processing, hypothesis files, the axum bridge and
  the solver-server client.
- `tests/` — tests of the library.
