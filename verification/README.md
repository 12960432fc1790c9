# sputnik

Link layer of a small LoRa satellite (STM32F103, SX1276) and of its ground
station, verified with Verus.

`src/` is the library:

- `codec` — little-endian fields as the packed frames lay them out;
- `protocol` — frame kinds, addresses, and the byte layout of every frame,
  with the proofs that each frame reads back from its bytes;
- `satellite` — beacons, reading ground commands out of received packets,
  carrying them out, and the acknowledgements and telemetry sent back;
- `ground` — the command packets the station sends, what it makes of received
  frames, its acknowledgement and telemetry waits, and its console text;
- `text` — the console's rendering of numbers;
- `link` — what one side sends, the other side reads; how the station's waits
  behave.

`app/` holds the firmware around it: radio and serial drivers, the sensors and
the heater's PID control (floating point), and the two main loops.
