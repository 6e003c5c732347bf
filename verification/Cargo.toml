[package]
name = "cpc_nvm3"
version = "1.0.0"
edition = "2021"
publish = false

[dependencies]
log = "=0.4.34"
chrono = "=0.4.45"
