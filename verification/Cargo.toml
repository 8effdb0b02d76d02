[package]
name = "delivery"
version = "0.1.0"
edition = "2021"
publish = false

[dependencies]
regex = "1"
rustc-serialize = "0.3"
clap = "2"
hyper = "0.10"
toml = "0.5"
serde = { version = "1", features = ["derive"] }
serde_json = "1"
term = "0.7"
log = "0.4"
time = "0.1"
uuid = { version = "1", features = ["v4"] }
tempdir = "0.3"
rpassword = "7"
mime = "0.2"
