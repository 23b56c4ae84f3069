//! Frame-buffer encoding for strips of WS2812 ("NeoPixel") LEDs driven over SPI.
//!
//! Each color bit of a pixel becomes one SPI byte whose high-time shapes the
//! WS2812 waveform; the whole strip is one byte buffer sent in a single burst.

pub mod laws;
pub mod neopixel;
