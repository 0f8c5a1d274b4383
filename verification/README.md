# rsbuild

A self-sufficient runtime to build projects: Python wheels, Docker Compose
services, Rust binaries and Cython packages, plus scaffolding for new Python
projects.

## Layout

- `src/` — the library, verified with Verus:
  - `text.rs`: character-level text operations (lines, trimming, search,
    replacement, joining, decimal numbers) with their specifications;
  - `cli.rs`: the command-line model and the execution context;
  - `executor.rs`: what running a command shows and yields;
  - `output.rs`, `parallel.rs`, `progress.rs`: result records, batch summaries;
  - `commands/`: the plans of the build, clean, cython, doctor, pull, python
    and run commands, and the templates of new Python projects;
  - `watch.rs`: which changes trigger a rebuild in watch mode.
- `app/` — the program: argument parsing, processes, files, terminal output,
  progress bars, threads and file watching around the library.
- `tests/` — tests of the library.
