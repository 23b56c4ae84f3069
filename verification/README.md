# neopixel

Verified frame-buffer encoding for WS2812 ("NeoPixel") strips driven by an
ESP32 over SPI with DMA.

- `src/neopixel.rs`: the buffer layout (one SPI byte per color bit, 24 bytes
  per pixel), writing one pixel or the whole strip, the initial buffer, and
  the steps of the breathing animation, each with its contract.
- `src/laws.rs`: properties across operations (read-back, last write wins,
  commuting writes, injectivity of the color encoding, the breathing ramp).
- `app/main.rs`: the firmware: peripherals, SPI transfers, watchdog, delays
  and the ADC loop.
- `tests/`: executable tests of the library.
