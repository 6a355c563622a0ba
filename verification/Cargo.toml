[package]
name = "fie"
version = "0.1.0"
edition = "2021"
publish = false

[dependencies]
data-encoding = "=2.11.1"
dirs = "=7.0.0"
futures-util = "=0.3.34"
http = "=1.5.0"
memmap = "=0.7.0"
mime_guess = "=2.0.5"
percent-encoding = "=2.3.2"
rand = "=0.10.3"
ring = "=0.17.14"
serde = { version = "=1.0.229", features = ["derive"] }
serde_json = "=1.0.154"
structopt = "=0.3.26"
tokio = { version = "=0.2.25", features = ["rt-core", "time"] }
toml = "=1.1.8"
yukikaze = { version = "=1.0.10", default-features = false, features = ["rustls-on"] }
