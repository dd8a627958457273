# cryptdoor

The connection logic of CryptDoor, a TUN-mode VPN client built on mihomo,
as a Verus-verified library, with the desktop app around it.

- `src/` — the verified library:
  - `text` — trimming, line splitting, decimal rendering, joining;
  - `yaml`, `json` — value trees with their mathematical views;
  - `yaml_text` — reading and writing YAML text with serde_yaml;
  - `tun_config` — wrapping a user's mihomo configuration text for TUN mode;
  - `protocol` — the helper's line protocol (requests, responses);
  - `daemon` — the privileged helper, one decision per event;
  - `client` — pinging the helper with retries, the steps of a connection;
  - `mihomo` — supervision of a locally started mihomo;
  - `installer` — the macOS install script, its quoting, and the steps of an install;
  - `commands` — statuses, tray, menu, network services;
  - `failure`, `platform` — error chains and build targets.
- `app/` — the Tauri app, the helper daemon's socket loop, and the
  serde forms of the library's types. It performs the I/O each library
  decision asks for.
- `tests/` — tests of the library, several against the std and serde
  behaviour the library follows.
