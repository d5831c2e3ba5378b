# openlogi

A local-first companion for Logitech HID++ peripherals, written as a Verus
library with a thin command-line program around it.

`src/` is the verified library:

- `binding` — mouse buttons, the action vocabulary, the action catalog, and
  the OS input event each action stands for;
- `picker` — grouping of actions into category sections for the picker;
- `config` — the user configuration and its per-device bindings;
- `state` — application state of the configuration UI (device list, current
  device, bindings kept in sync with the configuration);
- `device`, `inventory`, `listing` — receiver/device types, discovery
  decisions, and the text of the `list` command;
- `paths`, `asset` — the configuration path and the asset-sync decisions;
- `assoc` — association lists read as maps, used by the above.

`app/` holds the program: argument parsing, HID++ enumeration, file and
network I/O, the TOML schema, and posting OS events.
