[package]
name = "tokio-udev"
version = "0.1.0"
edition = "2021"
publish = false

[dependencies]
libc = "0.2"
mio = { version = "*", features = ["os-poll", "os-ext"] }
tokio = { version = "1", features = ["net"] }
futures-core = "0.3"
