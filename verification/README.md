# easytier_pro

The update logic of the EasyTier desktop manager, verified with Verus.

- `src/` — the verified library:
  - `text.rs`: suffix, substring and search on characters;
  - `version.rs`: leading `v`, semantic versions through the `semver` crate, "is there an update";
  - `release.rs`: release records, asset selection by architecture, update checks;
  - `paths.rs`: paths as components, the enclosing `.app` bundle, derived paths;
  - `install.rs`: the mount point in `hdiutil` output, the replacement script;
  - `installer.rs`: the order of the silent installation as stages, outcomes and actions;
  - `download.rs`: download progress reports;
  - `commands.rs`: greeting, effective core version, user agent, endpoints.
- `app/` — the Tauri program: HTTP requests, files, processes, events, and the
  serde copies of the library's records.
- `tests/` — tests of the library.
