[package]
name = "intro-embedded"
version = "0.1.0"
edition = "2021"
publish = false

[dependencies]
anyhow = "1"
log = "0.4"
embedded-graphics = "0.7"
ssd1306 = "0.7"
display-interface = "0.4"
embedded-hal = "0.2"
embedded-svc = "0.24"
esp-idf-sys = "0.32"
esp-idf-hal = "0.40"
esp-idf-svc = "0.45"
build-time = "0.1"
avr-device = { version = "0.5", features = ["attiny85"] }
panic-halt = "0.2"
