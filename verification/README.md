# luna_cli

The logic of `luna`, a command-line control plane for polyglot monorepos
(Moon, Proto, Bun, uv, Cargo, Go, Pixi), written in Verus with its behaviour
stated as contracts and proved.

- `src/` — the verified library: the configuration model and its validation,
  execution plans and the decision taken for each step, the parsers of each
  package manager's outdated reports and manifests, the supply-chain policy
  (release-age cooldown, Socket Firewall wrapping), doctor checks, reports, and
  the argument lists of every tool invocation.
- `src/formats.rs` — the only contact with `serde_json` and `toml`: each reader
  names what the parser yields, and the callers interpret it.
- `tests/` — concrete scenarios run against the compiled library.
- `app/` — the `luna` program: clap parsing, file and process I/O, JSON output,
  and the dispatch of each subcommand to the library.
