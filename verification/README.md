# meccable

Control a Meccanoid robot over Bluetooth LE, and drive its wheels with a
Wiimote Nunchuck.

`src/` is the library, verified with Verus:

- `protocol` — servos, lights, wheel directions, command identifiers, and the
  20-byte frame (command, 17-byte payload, big-endian checksum).
- `meccanoid` — the remembered servo and light state and the frame that each
  operation sends.
- `nunchuck` — nunchuck input and the parsing of its six extension bytes.
- `drive` — arcade-drive mixing from joystick to wheel commands.
- `control` — the decisions of the drive loop (dead-man switch, resending,
  eye toggle) and of the Wiimote reader.
- `repl` — the words of the interactive console.
- `address` — matching Bluetooth addresses, ignoring case.

`app/` holds the programs: the Bluetooth connection (`btleplug`), the console,
and the Wiimote remote (`wiimote-rs`, `clap`, `tokio`).
