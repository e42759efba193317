# rip — rotary inverted pendulum runtime

`src/` is the verified library (crate `rip`): every decision of the runtime
that works on integers, flags and bytes, with its contract proved by Verus.

- sensing: encoder counter accumulation, raw observations and their quality
  flags, promotion of usable evidence, pendulum ADC packaging;
- estimation timing: sample admission (prime, re-prime, ready) on the 64-bit
  and wrapping 32-bit timebases, the microsecond timebase;
- supervision: runtime qualification, sensor cadence monitoring, the control
  watchdog, closed-loop/maintenance authority, admission and run permit,
  output-safety slew history, the capture/balance regime sequence;
- recording and transport: the runtime record, timing evidence, the telemetry
  wire format with its CRC, the publisher and the UART packet transport;
- local UI: key debouncing and repeat, pages and contrast, the SSD1315 frame
  buffer with bounded background flushes, text rendering, software SPI;
- actuation: the TB6612 bridge modes and the break-before-make write sequence;
- board and assembly wiring tables and their consistency properties.

`app/` holds what works on floating point (control laws, estimator rates,
actuator and plant models, limit comparisons, command clamping, duty frames)
and the shared records, built on the library's decisions.

`tests/` exercises the library from outside.
