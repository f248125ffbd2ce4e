# adapters

The adapters of an agent runtime: embedded file and git tools, file skills,
tool and skill providers (embedded, JavaScript packages, MCP servers), the
JavaScript fetch filter and base64 helpers, MCP authentication headers, the
configuration cache, the logger level, inference request shaping and the
template engine.

Layout:

- `src/` holds the library, written in Verus: each public function carries a
  contract over spec models (`Seq`, `Map`, views of the library's types), and
  the laws that relate several functions stand as public proof functions
  next to them. Calls into outside crates (`regex`, `base64`, `http`, `tera`,
  std's Unicode tables) go through a few trusted wrappers whose doc comments
  say what is believed of them.
- `tests/` runs the library on concrete values.
- `app/` is the unverified shell: file system and git access, the JavaScript
  engine, MCP sessions, HTTP inference clients and configuration loading. It
  gathers what the outside world says, hands it to the library as plain
  values, and carries out what the library decides.
