# reclaim

Finds directories that build tools and package managers regenerate on demand
(`node_modules`, `target` beside a `Cargo.toml`, `.venv`, Gradle `build`
output, and more), measures them, and deletes the ones you pick.

- `src/` is the library, verified with Verus: the detector table and the
  marker rules (`detectors`, `scanner`), the decisions taken on each directory
  of a walk (`scanner::Scanner`), what a whole walk over a tree reports and
  its laws (`walk`), sizing, filtering, stable sorting and
  selection of findings (`triage`, `order`), the report's figures (`report`),
  the ignore-file format (`ignore`) and character helpers (`text`).
- `app/` is the command line tool: argument parsing, the directory walk,
  file metadata, the progress spinner, the interactive picker, printing and
  deletion.
