[package]
name = "tdx_identity"
version = "0.1.0"
edition = "2021"
publish = false

[dependencies]
ed25519-dalek = { version = "=2.2.0", features = ["rand_core"] }
sha2 = "=0.10.9"
hex = "=0.4.3"
sled = "=0.34.7"
tdx-quote = { version = "=0.0.5", features = ["mock"] }
configfs-tsm = "=0.0.2"
axum = { version = "=0.7.9", default-features = false, features = ["http1", "json", "tokio"] }
tokio = { version = "=1.53.2", features = ["full"] }
serde = { version = "=1.0.229", features = ["derive"] }
serde_json = "=1.0.151"
base64 = "=0.22.1"
rand = "=0.8.8"
reqwest = { version = "=0.12.28", default-features = false, features = ["json"] }
russh = "=0.44.1"
russh-keys = "=0.44.0"
async-trait = "=0.1.92"
futures-util = "=0.3.34"

[dev-dependencies]
p256 = "=0.13.2"
