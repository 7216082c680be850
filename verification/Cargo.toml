[package]
name = "slangbucket"
version = "0.1.0"
edition = "2021"
publish = false

[dependencies]
sha2 = "0.10"
base16ct = { version = "0.2", features = ["alloc"] }
actix-web = "4"
actix-cors = "0.6"
actix-web-lab = "0.18"
juniper = "0.15"
env_logger = "0.10"
log = "0.4"
redis = "0.23"
