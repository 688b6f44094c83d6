[package]
name = "rustpond"
version = "0.1.0"
edition = "2021"
publish = false

[dependencies]
anyhow = "=1.0.104"
async-openai = "=0.28.3"
chrono = "=0.4.45"
clap = "=4.6.7"
crossterm = "=0.25.0"
dotenv = "=0.15.0"
jsonwebtoken = "=9.3.1"
reqwest = { version = "=0.12.28", default-features = false, features = ["json", "rustls-tls"] }
serde = { version = "=1.0.229", features = ["derive"] }
serde_json = "=1.0.154"
tokio = { version = "=1.54.1", features = ["rt-multi-thread", "macros"] }
tui = "=0.19.0"

[dev-dependencies]
pem = "=3.0.6"
rand = "=0.8.8"
ring = "=0.17.14"
rsa = "0.9"
