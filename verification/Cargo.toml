[package]
name = "esp_clock"
version = "0.1.0"
edition = "2021"
publish = false

[dependencies]
time = { version = "=0.3.55", features = ["macros"] }
embedded-graphics = "=0.7.1"
profont = "=0.6.1"
tinybmp = "=0.3.3"
rustzx-core = "=0.16.0"
ili9341 = "=0.5.0"
st7789 = "=0.6.1"
ssd1306 = "=0.7.1"
display-interface = "=0.4.1"
display-interface-spi = "=0.4.1"
embedded-hal = "=0.2.7"
shtcx = "=0.11.0"
shared-bus = "=0.2.5"
icm42670 = "=0.1.1"
anyhow = "=1.0.104"
log = "=0.4.35"
cfg-if = "=1.0.5"
toml-cfg = "=0.1.3"
esp-idf-sys = "=0.31.12"
esp-idf-hal = "=0.38.1"
esp-idf-svc = "=0.42.5"
embedded-svc = "=0.22.3"
