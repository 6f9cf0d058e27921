# esp_clock

A desk clock and room-climate dashboard for ESP32 boards with a small display.
It shows the time, the date and the weekday, and the temperature and humidity
read by the board's own sensor or received over MQTT from another board.

- `src/` is the library, verified with Verus: the calendar texts (`calendar`,
  `text`), the second-by-second decisions of the dashboard (`dashboard`), the
  measurement texts (`measurements`), the layout of every panel as drawing
  operations (`geometry`, `layout`, `screen`), what those operations do to
  the display's pixels (`raster`), the palette (`color`), the boards' display
  setups (`board`) and the build settings (`config`).
- `app/` is the firmware around it: it brings the hardware and the network up,
  draws the library's operations with `embedded-graphics`, and runs the loop.
  It expects the bitmaps `assets/esp-rs-big.bmp`, `assets/esp-rs-small.bmp`,
  `assets/wifi.bmp` and `assets/wifi_not_connected.bmp` next to it.
- `tests/` exercises the library on concrete values.
