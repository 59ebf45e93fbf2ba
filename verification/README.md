# Wave OS Shell — verified core

The decision logic of the Wave OS desktop shell (a Tauri wrapper around the
Wave OS web app), with machine-checked contracts.

- `src/` — the library: which registry values and processes each command
  touches, how outcomes become replies for the web front end, the tray menu,
  the global hotkeys per shell mode, start-up modes, kiosk lockdown with its
  PIN, the update check and the Ollama status. Each public
  function has a contract; `law_*` proof functions state properties that
  span several functions (for instance, that the Winlogon value written when
  enabling shell mode reads back as shell mode).
- `tests/` — tests on concrete values.
- `app/` — the Tauri program: registry access, process spawning, HTTP,
  dialogs and windows, driven by the library.
- `extras/tauri.conf.json` — the application configuration.
