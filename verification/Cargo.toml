[package]
name = "uartfileserver"
version = "0.1.0"
edition = "2021"
publish = false

[dependencies]
clap = "=4.6.7"
dirs = "=7.0.0"
ncurses = "=5.101.0"
serde = { version = "=1.0.229", features = ["derive"] }
serialport = { version = "=4.10.1", default-features = false }
toml = "=1.1.7"
