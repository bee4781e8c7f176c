[package]
name = "adsb_deku"
version = "0.1.0"
edition = "2021"
publish = false

[dependencies]
deku = "0.16"
hex = "0.4"
clap = { version = "4", features = ["derive"] }
tui = "0.19"
