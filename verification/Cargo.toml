[package]
name = "lambda"
version = "0.1.0"
edition = "2021"
publish = false

[dependencies]
actix-web = { version = "4", default-features = false, features = ["macros"] }
aes-gcm = "0.10"
anyhow = "1"
argon2 = "0.5"
clap = { version = "4", features = ["derive"] }
data-encoding = "2"
ed25519-dalek = { version = "2", features = ["serde"] }
hkdf = "0.12"
opaque-ke = { version = "3", features = ["argon2", "serde"] }
postcard = { version = "1", default-features = false, features = ["alloc"] }
rand = "0.8"
rand_core = { version = "0.6", features = ["getrandom"] }
reqwest = { version = "0.11", default-features = false, features = ["rustls-tls", "gzip", "brotli", "deflate"] }
serde = { version = "1", features = ["derive"] }
sha2 = "0.10"
sqlx = { version = "0.7", default-features = false, features = ["postgres", "runtime-tokio"] }
subtle = "2"
thiserror = "1"
time = { version = "0.3", features = ["serde"] }
tokio = { version = "1", features = ["rt-multi-thread", "macros", "sync", "fs", "io-std", "io-util"] }
toml = "0.8"
wasmtime = { version = "12", default-features = false, features = ["async", "cranelift", "parallel-compilation"] }
zeroize = "1"
