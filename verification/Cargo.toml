[package]
name = "sentinel_mini"
version = "0.1.0"
edition = "2021"
publish = false

[dependencies]
heapless = "0.9"
esp-nvs = "*"
esp-storage = "*"
esp-hal = "*"
embedded-hal = "1.0"
embedded-graphics = "0.8"
ssd1306 = "*"
defmt = "1"
esp-alloc = "*"
esp-backtrace = "*"
esp-println = "*"
esp-bootloader-esp-idf = "*"
