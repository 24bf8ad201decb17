[package]
name = "pingall"
version = "0.1.0"
edition = "2021"
publish = false

[dependencies]
nix = { version = "*", features = ["net"] }
pico-args = "*"
tiny-ping = "*"
tokio = { version = "1", features = ["rt", "process", "time"] }
