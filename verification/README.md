# opencode-cloud

The command line tool that manages an opencode service running in a Docker
container, with its decisions, parsers and messages verified with Verus.

- `src/` is the verified library: runtime and host selection, bind mount
  normalization and editing, container environment variables, the configuration
  table, sandbox instance names, log filtering and journalctl commands, user
  account rules, update planning and the update command listener, status and
  disk usage rendering, cleanup and reset plans. Each public function carries a
  contract over a mathematical model of its inputs; `src/laws.rs` proves the
  properties that span several operations.
- `app/` is the program around it: argument parsing, configuration files,
  local processes and terminal output. It runs the `config` commands and, inside
  the opencode container, `status` and `logs`. The commands that act on Docker or
  the host service (start, stop, restart, status and logs on the host, user,
  mount, reset, update, install, uninstall, host, setup) need the Docker and
  service clients of the sibling crate opencode-cloud-core, which this build
  does not include; they stop with an error that says so.
- `tests/` runs the library on concrete values.
