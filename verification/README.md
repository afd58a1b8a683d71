# codex_updates

The update logic of the Codex command-line tool, verified with Verus:

- `src/versions.rs`: semantic-version parsing and precedence (through the
  `semver` crate) and the "is newer" comparison.
- `src/install.rs`: install methods and the npm package that manages an
  installation, official or NexusAgentX.
- `src/update_action.rs`: the update action for an installation, its command
  line (quoted through `shlex`) and its release notes.
- `src/npm_registry.rs`: the registry URL of a package (through `url`) and the
  latest version that is ready to install.
- `src/updates.rs`: the cached latest-version record, its source scoping, the
  refresh decision and the popup.
- `src/doctor.rs`: the "updates" row of the doctor report.
- `src/text.rs`: character-level string helpers.

`app/` holds what runs around the library: reading and writing the version
file, fetching registry and release documents with `curl`, and the
background refresh on the `tokio` runtime.
