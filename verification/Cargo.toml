[package]
name = "slotsfx"
version = "0.1.0"
edition = "2021"
publish = false

[dependencies]
serde = { version = "1.0.229", features = ["derive"] }
serde_json = "1.0.154"
hound = "3.5.1"
rtrb = "0.3.6"
rustfft = "6.4.1"
arc-swap = "1.9.3"
http = "1.5.0"
include_dir = "0.7.4"
nam-rs = "*"
rfd = "0.17.2"
wry = "0.57.1"
tao = "0.37.2"
