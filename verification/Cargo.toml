[package]
name = "zenith"
version = "0.1.0"
edition = "2021"
publish = false

[dependencies]
byte-unit = "=3.1.4"
chrono = "=0.4.45"
tui = "=0.6.2"
termion = "=1.5.6"
