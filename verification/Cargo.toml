[package]
name = "neopixel"
version = "0.1.0"
edition = "2021"
publish = false

[dependencies]
esp-hal = { version = "0.21", features = ["esp32"] }
esp-backtrace = { version = "0.14", features = ["esp32", "exception-handler", "panic-handler", "println"] }
esp-println = { version = "0.12", features = ["esp32"] }
nb = "1"
