# xiao_sense

Firmware logic for the Seeed Studio XIAO nRF52840 Sense, verified with Verus.

- `src/color.rs`: the 3-bit RGB colour (`Off` … `White`), additive mixing
  with `|`, and the active-low LED pin levels for a colour.
- `src/lsm6ds3.rs`: the LSM6DS3TR-C driver as a state machine. Each
  operation (`probe`, `init`, `configure`, `read_reg`, `write_reg`,
  `read_sample`) yields the I2C transfer to perform; `resume` takes its
  outcome. The driver remembers the address that answered the probe.
- `src/imu_task.rs`: the IMU task: which driver operation a command starts,
  and the reply texts (`heapless::String<64>`).
- `src/cli.rs`: the UART command line: echo, a 64-byte line buffer, and the
  commands `on`, `off`, `help`, `panic`, `imu-status`, `imu-read`,
  `imu-r <reg>` and `imu-w <reg> <value>`. Register numbers and values are
  one or two hexadecimal digits, optionally after `0x`.
- `src/uart.rs`: messages for the UART transmitter.
- `src/text.rs`: the fixed-capacity reply text.
- `app/`: the embassy firmware around the library: board setup, GPIO, the
  UART and I2C transfers, channels and tasks, and the floating-point
  printing of IMU samples.
