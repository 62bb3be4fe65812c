[package]
name = "zed_laravel"
version = "0.1.0"
edition = "2021"
publish = false

[dependencies]
regex-syntax = "=0.8.11"
serde_json = "=1.0.154"
tokio = { version = "=1.54.1", features = ["macros", "rt-multi-thread", "io-std", "io-util", "net", "sync"] }
tower-lsp = "=0.20.0"
zed_extension_api = "=0.7.0"

[dev-dependencies]
regex = "1"
