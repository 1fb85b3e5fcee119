[package]
name = "breathalyzer_firmware"
version = "0.1.0"
edition = "2021"
publish = false

[dependencies]
cortex-m-rtfm = "=0.5.3"
embedded-graphics = "=0.6.2"
heapless = "=0.5.6"
ssd1306 = "=0.3.1"
stm32l0xx-hal = { version = "=0.5.0", features = ["rt", "stm32l0x2"] }
