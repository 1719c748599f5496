[package]
name = "onboarder"
version = "0.1.0"
edition = "2021"
publish = false

[dependencies]
chrono = "0.4"
color-eyre = "0.6"
hyper = { version = "0.14", features = ["full"] }
hyper-rustls = { version = "0.24", features = ["acceptor"] }
itertools = "*"
percent-encoding = "2"
rustls = "0.21"
rustls-pemfile = "1"
serde = { version = "1", features = ["derive"] }
serde_json = "1"
structopt = "0.3"
strum = { version = "0.26", features = ["derive"] }
tokio = { version = "1", features = ["full"] }
tracing = "0.1"
tracing-subscriber = { version = "0.3", features = ["env-filter"] }
url = "2"
