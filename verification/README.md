# zero_robot

Control logic for small Raspberry Pi Zero robots, verified with Verus.

- `src/` is the verified library: command words (`commands`), the wheeled
  robot's pin sequences (`drive`), its keyboard bindings (`keyboard`) and
  timed pulses (`pulse`), the six-input scout car's pin sequences (`scout`), joystick
  steering (`joystick`), line handling (`console`), what the polling robots
  make of a server's reply (`remote`), the video capture and relay steps
  (`stream`), the GPIO sweep (`sweep`) and the laws that tie the programs
  together (`agreement`).
- `app/` runs the programs on the hardware and the network: GPIO through
  `rppal`, the terminal through `crossterm`, the game pad through `evdev`,
  the camera through `rscam`, HTTP through `reqwest`, `axum` and `warp`.
- `tests/` exercises the library on concrete values.
