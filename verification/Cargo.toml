[package]
name = "quarter_days"
version = "0.1.0"
edition = "2021"
publish = false

[dependencies]
chrono = "0.4"
icalendar = "*"
wasm-bindgen = "0.2"
