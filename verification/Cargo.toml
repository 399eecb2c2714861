[package]
name = "winsnap"
version = "0.1.0"
edition = "2021"
publish = false

[dependencies]
euclid = "0.22"
xcb = "1"
clap = { version = "3.2", features = ["derive"] }
clap-num = "1"
env_logger = "0.10"
log = "0.4"
bitflags = "1.3"
