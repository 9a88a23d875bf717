[package]
name = "mustel"
version = "0.1.0"
edition = "2021"
publish = false

[dependencies]
sqlparser = "=0.62.0"
aes-gcm = "=0.10.3"
rand = "=0.8.5"
glob = "=0.3.4"
clap = { version = "=4.6.7", features = ["derive"] }
colored = "=3.1.1"
tokio = { version = "=1.54.1", features = ["rt-multi-thread", "macros", "sync", "time"] }
tokio-postgres = { version = "=0.7.18", features = ["with-chrono-0_4", "with-serde_json-1", "with-uuid-1"] }
tokio-postgres-rustls = "=0.13.0"
rustls = { version = "=0.23.46", default-features = false, features = ["ring", "std", "tls12"] }
webpki-roots = "=1.0.10"
serde = { version = "=1.0.229", features = ["derive"] }
serde_json = "=1.0.154"
json5 = "=0.4.1"
directories = "=6.0.0"
indicatif = "=0.18.6"
inquire = "=0.9.4"
csv = "=1.4.0"
chrono = "=0.4.45"
uuid = "=1.29.0"
tracing = "=0.1.44"
anyhow = "=1.0.104"
thiserror = "=2.0.21"
iced = { version = "=0.14.0", default-features = false, features = ["tiny-skia", "x11", "tokio"] }
