[package]
name = "vetis"
version = "0.1.0"
edition = "2021"
publish = false

[dependencies]
radix_trie = "*"
base64 = "*"
bcrypt = "*"
argon2 = "*"
regex = "*"
minimime = "*"
time = { version = "*", features = ["formatting"] }
http = "*"
http-body-util = "*"
bytes = "*"
futures-util = "*"
hyper = { version = "*", features = ["server", "client", "http1", "http2"] }
hyper-util = { version = "*", features = ["tokio", "server", "client", "client-legacy", "http1", "http2"] }
tokio = { version = "*", features = ["full"] }
tokio-util = { version = "*", features = ["io"] }
rustls = { version = "*", default-features = false, features = ["std", "tls12", "ring"] }
tokio-rustls = { version = "*", default-features = false, features = ["ring", "tls12"] }
serde = { version = "*", features = ["derive"] }
serde_yaml_ng = "*"
clap = { version = "*", features = ["derive"] }
env_logger = "*"
log = "*"
thiserror = "*"
