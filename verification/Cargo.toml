[package]
name = "minicurl"
version = "0.1.0"
edition = "2021"
publish = false

[dependencies]
reqwest = { version = "0.12", features = ["blocking", "json"] }
serde_json = "1"
structopt = "0.3"
url = "2"
