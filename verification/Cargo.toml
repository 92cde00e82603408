[package]
name = "stream_backend"
version = "0.1.0"
edition = "2021"
publish = false

[dependencies]
url = "*"
actix-web = { version = "*", default-features = false, features = ["macros"] }
actix-files = "*"
tokio = { version = "*", default-features = false, features = ["net", "io-util", "rt-multi-thread", "macros"] }
tokio-rustls = "*"
rustls-pki-types = "*"
webpki-roots = "*"
bytes = "*"
futures = "*"
async-stream = "*"
serde = { version = "*", features = ["derive"] }
sqlx = { version = "*", default-features = false, features = ["sqlite", "runtime-tokio"] }
