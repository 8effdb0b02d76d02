# delivery

The Chef Delivery (Workflow) command line tool, as a verified library and a
thin program around it.

- `src/` is the library, verified with Verus: the configuration (`cli.toml`
  values, their defaults and overrides, the URLs they give), the token store,
  the HTTP client's routes and reply handling, git output parsing and the
  git commands each step runs, the project and build-cookbook rules, the job
  workspace, the decisions of every subcommand, and the command-line options
  with how they change the configuration. Each public function states what it
  returns in its `ensures`; the laws that relate several functions are public
  proof functions named `law_*`.
- `app/` is the program: argument parsing with `clap`, files, processes,
  HTTP with `hyper`, TOML and JSON with `serde`, and terminal output. It
  hands plain values to the library and does what the library decides.
- `tests/` runs the library on concrete values.
