[package]
name = "led_speakers"
version = "0.1.0"
edition = "2021"
publish = false

[dependencies]
rand = "0.8"
chrono = "0.4"
rustfft = "6"
serde = { version = "1", features = ["derive"] }
serde_json = "1"
libpulse-binding = "2"
ws2818-rgb-led-spi-driver = "*"
