# zerokb

A daemon that types the bytes it receives over TCP on a USB HID keyboard
gadget, with an out-of-band control port whose `ABORT` command drains the
current session, and an interactive client that forwards key presses.

- `src/` — the verified library (Verus):
  - `keymap`: character to (modifier, keycode) on a US layout, with laws on
    its coverage, injectivity, and the Shift and Control keys.
  - `report`: the 8-byte keyboard input reports.
  - `session`: the per-connection state machine (type, skip, or drop after
    an abort), with laws over whole runs of bytes.
  - `control`: the control line protocol (Unicode white-space trimming,
    commands and replies).
  - `editor`: the client's transcript and key handling (double Ctrl+C to
    quit), split around the write to the connection.
  - `screen`: the client's screen layout, computed by ratatui.
  - `usb`: detecting the gadget in the local USB listing.
- `app/` — the daemon and client programs: sockets, threads, the HID
  device, the terminal. Run under the name `test-typing`, the binary is the
  client.
- `tests/` — tests of the library.
