[package]
name = "collector"
version = "0.1.0"
edition = "2021"
publish = false

[dependencies]
url = "*"
serde = { version = "*", features = ["derive"] }
serde_json = "*"
tokio = { version = "*", features = ["rt-multi-thread", "macros", "process"] }
futures = "*"
walkdir = "*"
log = "*"
fern = "*"
chrono = "*"
indicatif = "*"
structopt = "*"
quicli = "*"
async-gitlib = "*"
