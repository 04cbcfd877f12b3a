[package]
name = "supipi"
version = "0.1.0"
edition = "2021"
publish = false

[dependencies]
ctrlc = { version = "3", features = ["termination"] }
evdev = "0.13"
thiserror = "2"
