[package]
name = "n_m3u8_re_rust"
version = "0.1.0"
edition = "2021"
publish = false

[dependencies]
url = "2"
hex = "0.4"
regex = "1"
chacha20 = "0.9"
aes = "0.8"
cbc = { version = "0.1", features = ["alloc"] }
ecb = { version = "0.1", features = ["alloc"] }
serde = { version = "1", features = ["derive"] }
quick-xml = { version = "0.36", features = ["serialize"] }
clap = "4"
chrono = "0.4"
tokio = { version = "1", features = ["rt-multi-thread", "fs", "io-util", "sync", "time", "macros"] }
reqwest = { version = "0.12", default-features = false, features = ["stream", "rustls-tls"] }
futures-util = "0.3"
bytes = "1"
indicatif = "0.17"
log = "0.4"
