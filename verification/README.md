# d2_mcp

An MCP server that validates, formats and renders [D2](https://d2lang.com/)
diagrams through the official `d2` command line tool, with its decisions
written in Verus and proved.

## Layout

- `src/` — the verified library.
  - `policy.rs`: the source rules (empty, size limit, remote `http://` /
    `https://` references), the render option ranges, the time limit.
  - `paths.rs`: the output path policy (relative, no `..`), joining to the
    working directory, and how a written file is shown to the caller. Paths
    are bytes, as on Unix, so a working directory whose name is not UTF-8
    is used as it is.
  - `command.rs`: the `d2` command lines, diagnostics and version text.
  - `tools.rs`, `render.rs`: each tool as a step function from the call,
    the configuration and what the last action came to, to the next action
    (refuse, write the source, check the target, run `d2`, read, remove,
    ask for the version, finish) and the report it returns.
  - `config.rs`: limits and settings; `text.rs`: decimal and hexadecimal
    text, UTF-8 facts; `hash.rs`: SHA-256; `error.rs`: the error type.
  - `laws.rs` and the `law_` proofs in `paths.rs`: properties that hold
    across the operations, such as output confinement to the working
    directory.
- `app/` — the server itself: environment, temporary files, running `d2`
  with a time limit, and the MCP transport. It performs the actions the
  step functions choose, in a loop, and decides nothing itself.
- `tests/` — tests of the library on concrete values.
