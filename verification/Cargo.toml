[package]
name = "cspot"
version = "0.1.0"
edition = "2021"
publish = false

[dependencies]
data-encoding = "=2.11.1"
sha1 = "=0.11.0"
librespot = { version = "=0.8.0", default-features = false, features = ["rustls-tls-webpki-roots", "with-libmdns"] }
log = "*"
once_cell = "*"
futures-util = "*"
tokio = { version = "*", features = ["rt-multi-thread", "sync"] }
ndk-context = "*"
vergen = "=9.0.6"
