[package]
name = "oled_display"
version = "0.1.0"
edition = "2021"
publish = false

[dependencies]
anyhow = "1"
embedded-graphics = "0.8"
esp-idf-hal = "*"
esp-idf-svc = "*"
image = { version = "0.25", default-features = false }
log = "0.4"
qrcode = "0.14"
ssd1306 = "*"
