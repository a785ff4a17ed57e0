[package]
name = "tracer_core"
version = "0.1.0"
edition = "2021"
publish = false

[dependencies]
libc = "0.2"
rhai = "1"
anyhow = "1"
log = "0.4"
simplelog = "0.12"
signal-hook = "0.3"
flate2 = "1"
inotify = { version = "0.10", default-features = false }
