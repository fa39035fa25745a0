[package]
name = "satu_toko"
version = "0.1.0"
edition = "2021"
publish = false

[dependencies]
rand = "=0.8.8"
urlencoding = "=2.1.3"
zip = { version = "=0.6.6", default-features = false, features = ["deflate"] }
serde = { version = "=1.0.229", features = ["derive"] }
serde_json = "=1.0.154"
dirs = "=7.0.0"
log = "=0.4.34"
tokio = { version = "=1.54.1", features = ["time", "rt"] }
reqwest = { version = "=0.12.28", default-features = false, features = ["rustls-tls"] }
thirtyfour = { version = "=0.36.1", default-features = false, features = ["reqwest", "rustls-tls"] }
