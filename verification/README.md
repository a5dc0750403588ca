# odoo_cli

`odx`, a command-line tool for Odoo development projects: it creates projects,
fetches Odoo into a shared per-version store, runs the server behind a live log
dashboard with a debugger listener, runs tests against a throw-away database, and
wraps the usual database and maintenance chores.

## Layout

- `src/` — the library, verified with Verus. Every decision the tool makes lives
  here with a contract: how the project and its Odoo source are found, the
  `addons_path` written to `odoo.conf.local`, the command lines of every odoo-bin,
  pip, git and Docker Compose call, the test-output parser and the test summary,
  the dashboard's key handling and scrolling, the install guide, and the text of
  the results and errors those functions return. File-system facts and process
  results come in as plain values; progress and status lines that only report
  what the program is doing are worded in `app/`. Calls into `regex`, `configparser`, `etc-os-release`, `serde_json` and
  `console` stand behind small trusted wrappers whose contracts say what those
  crates promise.
  - `src/commands/` — one module per subcommand.
  - `text`, `paths`, `order` — the string, path and ordering model the contracts
    are written in.
- `tests/` — tests of the library on concrete values.
- `app/` — the `odx` program: argument parsing (clap), the terminal (crossterm,
  ratatui, indicatif, inquire), files, child processes and signals. It looks
  things up, hands them to the library, and carries out what the library decides.

`odx new` reads its project templates at run time from `ODX_TEMPLATE_DIR`, or from
`project_template` next to the executable.
