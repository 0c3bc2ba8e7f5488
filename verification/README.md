# soundcore_control

A desktop controller for Soundcore earbuds and headphones: battery levels,
ambient sound (a ten-level transparency / noise-canceling slider, or a mode
picker), equalizer presets and bands, daily and gesture controls, a system
tray menu and a background watcher that starts the tray when the earbuds
connect.

## Layout

- `src/` is the library, verified with Verus. It holds every decision the
  program makes:
  - `domain` — the device settings model, the snapshot the interface shows
    (`snapshot_from_settings`) and the setting writes of each command
    (`setting_changes`), with the read-back laws of the ambient commands;
  - `devices` — the catalog of supported models and device matching;
  - `device` — the Bluetooth worker's events, configured address, error
    texts, command plans and the start-up ambient repair;
  - `app` — the state machines of the window and of the tray-only service;
  - `tray`, `notify` — tray state and the texts of the tray and notification;
  - `ui` — the ambient slider, controls list, equalizer texts and the
    device simulation behind the debug window;
  - `watch` — the watcher's decisions and the reading of process command
    lines;
  - `mac`, `text` — MAC addresses (through the `macaddr` crate) and text
    helpers.
- `app/` is the program around it: the `eframe` window, the `ksni` tray, the
  Bluetooth worker on `openscq30-lib`, the BlueZ watcher and the desktop
  notification.
- `tests/` runs the library on concrete values.
