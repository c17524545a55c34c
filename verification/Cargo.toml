[package]
name = "pricefeeds"
version = "0.1.0"
edition = "2021"
publish = false

[dependencies]
async-trait = "0.1"
log = "0.4"
reqwest = { version = "0.11", features = ["json"] }
time = "0.3"
