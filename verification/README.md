# cinemacontrol

CinemaControl is a replacement logic board for the 27" iMac (2009) display:
it drives the backlight PWM, reads the PSU's INA219 and EMC1403 sensors over
SMBus and exposes brightness and telemetry over USB HID. This crate holds the
project's logic as a library verified with Verus, and the `cinectl` host tool
around it.

- `src/` — the verified library:
  - `protocol`, `hid_tools`, `report` — the HID wire format: telemetry
    structs, little-endian report fields, feature reports.
  - `device` — grouping a HID device listing into boards, ordered by serial.
  - `ina219`, `emc1403` — register maps and codecs of the two sensors
    (configuration fields, temperatures, limits, flag registers, probing).
  - `fan_control` — the fan's tachometer fail-safe.
  - `firmware` — the board's decisions: brightness reports and storage,
    backlight and fan PWM, the SMBus polling cycles and what they publish.
  - `psu_scan` — the read-only SMBus diagnostic sweep, as a state machine.
  - `menubar` — slider percentages, labels and board-list refreshes of the
    menu bar companion.
- `tests/` — the library's tests.
- `app/` — `cinectl` (the hidapi transport and the CLI), the sensors' async
  bus transactions over `embedded-hal-async`, and the PID fan controller.
