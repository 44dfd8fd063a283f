# aqi_monitor

Verified core of a PMS5003 air-quality monitor (ESP32-C6 with a small LCD).

- `src/` (Verus): the sensor protocol (command frames, start-byte search,
  payload decoding), the 24-hour PM2.5 history kept in a fixed-capacity
  `heapless::Vec`, the display loop state, the sensor duty cycle, backlight and
  button decisions, and the drawing steps of each screen (live values, last
  hour, last 24 hours, hourly bars) with their AQI colors.
- `app/`: the firmware around it: UART, GPIO, LEDC, timers and async tasks,
  text formatting and drawing with `embedded-graphics`.
- `tests/`: tests of the library on concrete values.
