# tickeys

The decisions of Tickeys, a utility that plays a sound for each key typed,
written in Verus and proved against their contracts.

- `src/keys.rs`: the key sequence Q A Z 1 2 3 that opens the settings window.
- `src/settings.rs`: the settings window's open/closed state, its controls, links and version label.
- `src/schemes.rs`: looking up audio schemes by name and validating the stored preference.
- `src/paths.rs`: where the bundled resources lie relative to the executable.
- `src/update.rs`: what the update server's reply means.
- `src/json_guard.rs`: the bounds within which the JSON reader reads a text without a panic.
- `src/accessibility.rs`: the dialogue that asks for the accessibility permission.
- `app/`: the macOS glue (Objective-C runtime, user defaults, HTTP, notifications).
