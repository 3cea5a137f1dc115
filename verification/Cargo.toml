[package]
name = "statics_lib"
version = "0.1.0"
edition = "2021"
publish = false

[dependencies]
image = "=0.25.10"
jsonwebtoken = { version = "=11.1.0", features = ["rust_crypto"] }
rand = "=0.10.3"
serde_json = "=1.0.151"

[dev-dependencies]
rsa = { version = "=0.9.10", features = ["getrandom"] }
