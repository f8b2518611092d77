[package]
name = "pdf_gateway"
version = "0.1.0"
edition = "2021"
publish = false

[dependencies]
rsa = { version = "0.9", features = ["sha2"] }
sha2 = "0.10"
base64 = "0.22"
actix-web = { version = "4", default-features = false, features = ["macros"] }
actix-web-httpauth = "0.8"
tokio = { version = "1", features = ["macros", "rt-multi-thread"] }
reqwest = { version = "0.12", default-features = false }
clap = { version = "4", features = ["derive", "env"] }
env_logger = "0.11"
log = "0.4"
bytes = "1"
http = "1"
httpdate = "1"
reqsign-core = { version = "*", default-features = false }
reqsign-oracle = { version = "*", default-features = false }
