# ptto

`ptto` deploys a Go single-binary web app to one VPS: it builds the binary for Linux
amd64, uploads it over SSH, starts it next to the running release on a free port,
points Caddy at it and stops the old process (blue-green). It also bootstraps the host
(`init`), follows logs (`logs`), opens a process dashboard (`top`), streams access
telemetry (`traffic`) and moves the SQLite database (`db shell|pull|push`). Several apps
can share one host; each lives under `/opt/ptto/apps/<app>/` with its own Caddy site.

## Layout

- `src/` is the verified library. `commands::dispatch` turns a parsed command line and
  what reading `.ptto.toml` gave into a plan of steps, with a contract that states
  every step;
  `validate` checks domains, app names and systemd unit names; `remote` builds the
  remote shell scripts and paths; `shell` quotes values for the shell; `ssh` builds
  `ssh`/`scp` command lines; `plan` holds the step types and how a run goes on after a
  failure; `config` turns what reading `.ptto.toml` gave into a configuration.
- Proved properties stand beside the code as proof functions, among them: a quoted value
  reads back as exactly the value in a POSIX shell (`shell`); apps never share a
  database, directory, Caddy site file or log file, `db push` stages the upload in the
  app's data directory, moves it onto the database and stops and restarts the app
  through the same pid, port and binary paths that a deploy writes, and a release
  that fails its health check exits before the Caddy site is written, Caddy is reloaded
  or the old process is signalled (`remote`); an accepted domain holds only letters,
  digits, hyphens, dots and a leading `*` (`validate`); a dry run starts no build,
  `ssh` or `scp`, every `ssh`/`scp` runs in batch mode, and an unreadable or
  unparsable `.ptto.toml` stops every command but `generate-key` before any step
  (`commands`); a run of a plan only ever names steps of that plan (`plan`).
- `app/` is the command itself: argument parsing (clap), reading and parsing
  `.ptto.toml` (toml), and carrying out the steps (printing, directories, processes).
- `tests/` run the library on concrete values.
