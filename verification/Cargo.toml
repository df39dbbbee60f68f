[package]
name = "lemmy-client"
version = "0.19.3"
edition = "2021"
publish = false

[dependencies]
http = "1"
lemmy_api_common = { version = "0.19", default-features = false }
reqwest = { version = "0.12", features = ["json"] }
serde = { version = "1", features = ["derive"] }
serde_json = "1"
serde_urlencoded = "0.7"
thiserror = "1"
gloo-net = "0.6"
web-sys = { version = "0.3", features = ["AbortController", "AbortSignal"] }
