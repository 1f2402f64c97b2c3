# zed_mojo

The verified core of a Zed extension for the Mojo language, written in Verus.

- `src/` is the library. It finds the Mojo SDK (from the `mojo_sdk_path` setting, a Pixi
  project, or the `PATH`), builds the language server command, rewrites debug launch
  configurations for the `mojo-lldb` adapter, and builds debug adapter binaries and debug
  scenarios. The verified functions have contracts over a mathematical model, and
  `src/laws.rs` proves properties that span them.
  JSON text is parsed and written with `serde_json` (through `zed_extension_api`). What
  Verus takes on trust is in `src/json.rs`: the two types `serde_json::Value` and
  `serde_json::Number`; the wrappers `parse_json`, `print_json` and `copy_number`, whose
  contracts name what `serde_json` gives (`json_parse`, `json_print`); and the two
  converters between `serde_json::Value` and `JsonValue` that those wrappers call, which
  have no contract of their own. Before a value is written, a verified function keeps only
  the first entry for each key in every object.
- `app/` is the Zed side: it reads the worktree, the settings and the host platform through
  `zed_extension_api`, and converts between the library's types and Zed's.
- `tests/` runs the library on concrete inputs.
