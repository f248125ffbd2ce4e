[package]
name = "adapters"
version = "0.1.0"
edition = "2021"
publish = false

[dependencies]
regex = "1"
git2 = "*"
ssh2 = "*"
base64 = "*"
http = "*"
serde = { version = "1", features = ["derive"] }
serde_json = "1"
walkdir = "2"
chrono = "*"
tokio = { version = "1", features = ["rt", "rt-multi-thread", "macros"] }
reqwest = { version = "*", features = ["json"] }
config = "*"
tera = "*"
boa_engine = "*"
boa_runtime = "*"
genai = "*"
rmcp = { version = "*", features = ["client", "transport-streamable-http-client-reqwest"] }
async-trait = "*"
