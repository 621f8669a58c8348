[package]
name = "py32f030_hal"
version = "0.1.0"
edition = "2021"
publish = false

[dependencies]
PY32f030xx-pac = { version = "=0.1.0", features = ["rt"] }
cortex-m = "=0.7.10"
cortex-m-rt = "=0.7.7"
critical-section = "=1.2.0"
embedded-hal = "=1.0.0"
embedded-hal-async = "=1.0.0"
embassy-hal-internal = "=0.2.0"
embassy-sync = "=0.8.0"
embassy-time-driver = "=0.1.0"
enumset = "=1.1.15"
atomic-polyfill = "=1.0.3"
