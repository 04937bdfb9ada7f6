[package]
name = "app_timer"
version = "0.1.0"
edition = "2021"
publish = false

[dependencies]
chrono = "0.4"
csv = "1"
rust-ini = "*"
home = "*"
log = "0.4"
simplelog = "*"
native-windows-gui = { version = "1", default-features = false }
native-windows-derive = "1"
