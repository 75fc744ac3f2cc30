# openlogi_inject

The decision logic of the OpenLogi input injector and of the device screens,
verified with Verus.

- `src/action.rs` — bound actions, recorded macOS chords, the chord model
  shared by the Linux and Windows injectors, and the key-event order that
  types a chord.
- `src/windows_keys.rs`, `src/linux_keys.rs` — macOS `kVK_*` → Win32 / Linux
  key-code tables, the Linux modifier ordering, and their laws (injective,
  modifiers/keypad/media keys left out, Windows alphanumerics and F-keys
  reachable).
- `src/linux.rs`, `src/macos.rs`, `src/windows.rs` — the event each action
  becomes on each platform, scroll amounts, and the macOS event marker.
- `src/laws.rs` — properties across platforms.
- `src/widgets.rs`, `src/detail.rs` — the choices behind the device cards and
  the device-detail screen: labels, glyphs, badges, rows and toggles. The
  rendering of those screens (gpui layout) is not part of this crate: gpui is
  not available to it.
- `src/device_path.rs` — the node reported for the injector device.
- `app/` — the unverified executors that perform what the library decides:
  Linux (`uinput`, D-Bus, logind) and macOS (`CGEvent`s; the Dock
  notifications and NX media keys are not bound). There is no Windows
  executor: on Windows `execute` only logs a warning.
