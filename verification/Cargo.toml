[package]
name = "watchdog_probe"
version = "0.1.0"
edition = "2021"
publish = false

[dependencies]
esp-alloc = { version = "=0.11.0", features = ["esp32c6"] }
esp-bootloader-esp-idf = { version = "=0.6.0", features = ["esp32c6"] }
esp-hal = { version = "=1.2.2", features = ["esp32c6", "unstable"] }
esp-println = { version = "=0.18.0", features = ["esp32c6"] }
