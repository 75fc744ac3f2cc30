[package]
name = "openlogi_inject"
version = "0.1.0"
edition = "2021"
publish = false

[dependencies]
evdev = "=0.13.2"
tracing = "=0.1.44"
core-graphics = { version = "=0.24.0", features = ["highsierra"] }
