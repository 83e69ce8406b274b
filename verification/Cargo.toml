[package]
name = "xiao_nrf52840"
version = "0.1.0"
edition = "2021"
publish = false

[dependencies]
cortex-m = { version = "=0.7.10", features = ["critical-section-single-core"] }
cortex-m-rt = "=0.7.7"
embedded-hal = "=1.0.0"
nrf52840-hal = "=0.19.0"
usb-device = "=0.3.2"
usbd-serial = "=0.2.2"
embassy-executor = "=0.9.1"
embassy-nrf = { version = "=0.11.0", features = ["nrf52840", "time-driver-rtc1", "gpiote"] }
embassy-time = "=0.5.1"
embassy-usb = "=0.6.0"
static_cell = "=2.1.1"
rtic = { version = "=2.4.0", features = ["thumbv7-backend"] }
rtic-monotonics = { version = "=3.0.0", features = ["nrf52840"] }
