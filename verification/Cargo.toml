[package]
name = "server_fn"
version = "0.1.0"
edition = "2021"
publish = false

[dependencies]
actix-web = { version = "4", default-features = false }
axum = { version = "0.7", default-features = false }
bytes = "1"
ciborium = "0.2"
dashmap = "5"
futures = "0.3"
gloo-net = { version = "0.5", default-features = false, features = ["http"] }
http = "1"
http-body-util = "0.1"
js-sys = "0.3"
multer = "3"
once_cell = "1"
reqwest = { version = "0.11", default-features = false, features = ["stream"] }
send_wrapper = "0.6"
serde = "1"
serde_json = "1"
serde_qs = "0.12"
web-sys = { version = "0.3", features = ["FormData"] }
