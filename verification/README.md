# pconnect

A command-line manager for local PHP/Laravel + Vue development stacks on
Windows: it installs PHP, PostgreSQL or MySQL and Bun under the user's home,
creates projects, starts and stops their services, and opens a shell that
finds the installed programs. It comes with an installer for the tool itself.

The decisions of the tool are a verified library (`src/`, checked with Verus).
Each manager is a state machine: it is stepped with the outcome of the last
operation and answers with the messages to show and the next operation to
perform. Its contract states the whole step as a spec function, and laws about
runs of several steps (a running service is never started twice, a stop kills
the process whose id its start recorded, extraction stays inside the program's
folder, registering a local domain twice appends it once, ...) are proved as
public proof functions beside the machines.

- `src/text.rs`: text functions stated over character sequences.
- `src/effects.rs`: operations, outcomes and notices exchanged with the program.
- `src/archive.rs`: reading zip archives through the `zip` crate.
- `src/install_jobs.rs`, `src/locate.rs`, `src/pid_stop.rs`: shared jobs.
- `src/pconnect_tool/`, `src/php_connects/`: the managers of the two editions.
- `src/pconnect_install.rs`: the installer.
- `app/`: the program that performs the operations (files, processes,
  downloads with `reqwest`, the registry with `winreg`), reads the
  configuration with `serde`/`toml` and the command line with `clap`.
