# opencode-container

Runs the opencode CLI in a Podman (or Docker) container with per-project
isolation. The text it computes and the decisions of a launch (what to
check, build, start, probe, stop, and when to refuse or fail) are written
as a library verified with Verus; a launch is a state machine whose actions
the program performs and whose events it reports back. The program around
the library performs the I/O: processes, files, the network, signals.

- `src/` — the verified library:
  - `cli` — options, subcommands (`run`/`tui`, `projects`, `completion`),
    the `--web` flag, the `--` shorthand;
  - `setup` — the search for the container files, the mounted directory,
    the choice of path, the options of a launch;
  - `launch` — the fast path and the devcontainer path as state machines,
    with their laws (building exactly when needed, refusing a running
    project, cleaning up after the command ends, giving up on a container
    that never shows);
  - `util` — web-mode argument detection and completion, project identifiers;
  - `project` — the base64url identifier, its decoding, per-project storage;
  - `port` — the free-port search as a state machine, and reading `lsof`
    and `ss` output;
  - `web` — waiting for the server, opening the browser, exit status;
  - `container` — fast-path `podman run` arguments and container queries;
  - `devcontainer` — `containerEnv`, feature merging and the generated
    `devcontainer.json` for `--feature-file`;
  - `output` — reading the first line / path printed by commands;
  - `completion` — choice of completion script and the bash label repair;
  - `json`, `entries`, `text` — JSON values, key–value lists, string helpers.
    JSON objects and the environment map are held as key–value lists whose
    keys are unique, a later setting replacing an earlier one in place, as a
    map would; the library states this of them.
- `app/` — the `opencode-container` program: clap, processes, files, signals.
- `tests/` — tests of the library.
