# warp_app

The decision logic of Warp's GitHub-release updater and of its web preview panel,
verified with Verus.

- `src/version.rs`: release tags, parsing of `major.minor.patch`, and the "is newer" order.
- `src/release.rs`: the release and asset types, the asset name for a platform, the choice
  of the asset, and what a release means for the running version.
- `src/install.rs`: the name of the downloaded update file and of the replaced executable.
- `src/updater.rs`: the update lifecycle as a state machine; each step names the work
  (fetch, download, apply, relaunch) that the caller performs and reports back.
- `src/web_preview.rs`: the address bar and browsing history of the web preview panel.
- `src/text.rs`: character-level string helpers (prefix, search, trim, join).
- `app/`: the outside work: HTTP requests, files, timers, relaunching, JSON.

Not here: the panel's widgets and its rendering (header, address bar, content area). They
are built with the app's own UI framework, which is not available as a crate; the one
decision they make, whether to show the current address, is `has_page`.
