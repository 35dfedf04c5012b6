[package]
name = "valid8r"
version = "0.1.0"
edition = "2021"
publish = false

[dependencies]
serde_json = "1"
reqwest = { version = "0.12", default-features = false, features = ["blocking"] }
colored = "2"
structopt = "0.3"
sysinfo = "*"
ntp = "*"
chrono = "0.4"
