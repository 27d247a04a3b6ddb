[package]
name = "stm32f3-rtc"
version = "0.1.0"
edition = "2021"
publish = false

[dependencies]
stm32f3xx-hal = { version = "0.10", features = ["stm32f303xc", "rt"] }
cortex-m = "0.7"
cortex-m-rt = "0.7"
cortex-m-semihosting = "0.5"
