[package]
name = "walle_q"
version = "0.1.0"
edition = "2021"
publish = false

[dependencies]
hex = "0.4"
md5 = "0.7"
sha2 = "0.10"
rmp-serde = "*"
serde = { version = "1", features = ["derive"] }
serde_json = "1"
toml = "*"
image = { version = "*", default-features = false, features = ["png"] }
ricq = "*"
ricq-core = "*"
prost = "*"
walle-core = "*"
tokio = { version = "1", features = ["full"] }
tracing = "0.1"
tracing-subscriber = "*"
clap = { version = "4", features = ["derive"] }
colored = "*"
once_cell = "1"
sled = "*"
rusty-leveldb = "*"
async-trait = "0.1"
cached = "*"
dashmap = "*"
chrono = "*"
rand = "*"
thiserror = "*"
