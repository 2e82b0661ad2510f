[package]
name = "toby"
version = "0.1.0"
edition = "2021"
publish = false

[dependencies]
bincode = "=1.3.3"
byteorder = "=1.5.0"
clap = "=2.34.0"
fs2 = "=0.4.3"
libc = "=0.2.191"
nanoid = "=0.5.0"
reqwest = { version = "=0.11.27", default-features = false, features = ["blocking", "json", "multipart", "rustls-tls"] }
rocket = { version = "0.5", features = ["json", "tls"] }
serde = { version = "=1.0.229", features = ["derive"] }
tempdir = "=0.3.7"
toml = "=0.5.11"
users = "=0.11.0"
