[package]
name = "sherline_power_feed"
version = "0.1.0"
edition = "2021"
publish = false

[dependencies]
heapless = "0.7"
embedded-graphics = "0.7"
embedded-hal = "0.2"
switch-hal = "0.4"
ssd1306 = "0.6"
stm32f1xx-hal = { version = "0.7", features = ["stm32f103", "rt", "medium"] }
cortex-m = "0.7"
cortex-m-rt = "0.6"
defmt = "0.3"
