[package]
name = "actix-ws"
version = "0.1.0"
edition = "2021"
publish = false

[dependencies]
actix-http = { version = "=3.19.0", default-features = false, features = ["ws"] }
actix-web = { version = "=4.18.1", default-features = false, features = ["ws"] }
bytes = "=1.12.1"
futures = "=0.3.34"
pin-project = "=1.1.13"
thiserror = "=2.0.21"
tokio = { version = "=1.54.1", features = ["sync"] }
tokio-util = { version = "=0.7.20", features = ["codec"] }
