[package]
name = "c2pa_validate"
version = "0.5.0"
edition = "2021"
publish = false

[dependencies]
anyhow = "=1.0.104"
c2pa = { version = "=0.78.8", default-features = false, features = ["rust_native_crypto", "file_io"] }
chrono = "=0.4.45"
clap = { version = "=4.6.7", features = ["derive"] }
der-parser = "=10.0.0"
glob = "=0.3.4"
hex = "=0.4.3"
jsonschema = { version = "=0.60.2", default-features = false }
pem = "=3.0.6"
reqwest = { version = "=0.13.5", default-features = false, features = ["blocking"] }
serde = { version = "=1.0.229", features = ["derive"] }
serde_json = "=1.0.154"
serde_yaml = "=0.9.34"
tracing = "=0.1.44"
tracing-subscriber = "=0.3.23"
x509-parser = "=0.18.1"
