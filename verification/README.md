# operit

A verified core for the Operit chat runtime: the logic of its chat services,
model providers, tools and remote link, written in Verus with contracts that
are proved.

- `src/` is the library. Every function there carries a `requires`/`ensures`
  contract over spec functions and views; laws that relate several functions
  are public proof functions named `law_*`.
- `tests/` runs the library on concrete values.
- `app/` is the program around it: the command line, the terminal
  interface, the HTTP link server and client, service discovery and
  streaming I/O.

Main modules: `enhanced` (the chat service, its execution registry and the
reply loop), `conversation` and `prompt` (history preparation),
the provider modules (stream parsing and request messages), `tools` and
`tool_calls` (tool registry, proxy calls, browser and sleep tools), `link`
(pairing handshake and signed sessions), `runtime` (chat services of the two
views), `tui`, `render` and `blocks` (terminal rendering).
