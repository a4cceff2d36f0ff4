[package]
name = "hcsr04_async"
version = "0.1.0"
edition = "2021"
publish = false

[dependencies]
embassy-time = "=0.5.1"
embedded-hal = "=1.0.0"
embedded-hal-async = "=1.0.0"
libm = "=0.2.16"

[dev-dependencies]
embassy-time = { version = "=0.5.1", features = ["tick-hz-32_768"] }
