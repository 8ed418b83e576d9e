# nemoguardrails_plugin

Configuration contract of the built-in `nemoguardrails` plugin component,
verified with Verus.

- `src/config.rs`: the typed configuration document, its defaults, and the key
  structure (`ConfigObject`) of the raw JSON object it was read from.
- `src/validate.rs`: every validation rule, each specified as the exact
  diagnostics it appends.
- `src/plugin.rs`: unsupported-config policy, diagnostics, plugin errors and a
  registry of plugin kinds.
- `src/component.rs`: the plugin and the registration of its kind.
- `src/laws.rs`: properties over all configurations and registries.
- `src/text.rs`: white space, string comparison, substring search, decimal
  rendering.
- `app/lib.rs`: JSON reading and writing with serde, and the asynchronous
  initialization entry point.
