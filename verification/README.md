# intro-embedded

The logic of the demos of an introduction to embedded Rust, verified with Verus:

* an ATtiny85 that blinks an LED, at a fixed rate or at a rate set by a light
  dependent resistor;
* an ESP32 that shows light readings on an SSD1306 OLED screen and serves them
  on a self-refreshing web page over Wi-Fi.

Layout:

* `src/` — the verified library.
  * `blink` — the LED firmwares as a controller (next action, next state) and
    the sensor-driven blink period.
  * `monitor` — the ESP32 light monitor loop and the text on the screen.
  * `web` — the routing table, the pages and the responses of the web servers.
  * `wifi` — joining the network: the scan-and-mixed-mode join of the first web
    demo and the station bring-up with mDNS announcement of the later one.
  * `decimal` — decimal rendering of readings.
* `app/` — board support: performs the actions the controllers ask for on the
  real hardware (pins, ADC, I2C display, Wi-Fi, HTTP server).
* `tests/` — tests of the library.
