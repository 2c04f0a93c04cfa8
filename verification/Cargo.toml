[package]
name = "embedder"
version = "0.1.0"
edition = "2021"
publish = false

[dependencies]
fastembed = { version = "=7.1.0", default-features = false, features = ["ort-load-dynamic", "hf-hub-rustls-tls"] }
ort = { version = "=2.0.0-rc.13", default-features = false, features = ["load-dynamic"] }
