[package]
name = "dns_guard"
version = "1.1.0"
edition = "2021"
publish = false

[dependencies]
axum = "0.7"
bytes = "1"
clap = { version = "4", features = ["derive"] }
core-foundation = "0.9"
ctrlc = "3"
env_logger = "0.11"
futures-util = "0.3"
h2 = "0.4"
http = "1"
hyper-util = { version = "0.1", features = ["tokio"] }
libc = "0.2"
log = "0.4"
native-tls = { version = "0.2", features = ["alpn"] }
parking_lot = "0.12"
prost = "0.13"
serde = { version = "1", features = ["derive"] }
serde_json = "1"
socket2 = "0.5"
system-configuration = "0.6"
tokio = { version = "1", features = ["full"] }
tokio-native-tls = "0.3"
tokio-stream = { version = "0.1", features = ["net", "sync"] }
tonic = "0.12"
tower = "0.4"
ureq = { version = "2", default-features = false, features = ["native-tls"] }
