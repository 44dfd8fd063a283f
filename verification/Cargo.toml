[package]
name = "aqi_monitor"
version = "0.1.0"
edition = "2021"
publish = false

[dependencies]
embedded-graphics = "0.8"
heapless = "*"
embedded-graphics-framebuf = "*"
embassy-executor = "*"
embassy-sync = "*"
embassy-time = "*"
esp-hal = { version = "*", features = ["esp32c6", "unstable"] }
esp-rtos = { version = "*", features = ["esp32c6", "embassy"] }
esp-backtrace = { version = "*", features = ["esp32c6", "panic-handler", "println"] }
esp-bootloader-esp-idf = { version = "*", features = ["esp32c6"] }
