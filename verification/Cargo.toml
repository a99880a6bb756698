[package]
name = "data_fetcher"
version = "0.1.0"
edition = "2021"
publish = false

[dependencies]
reqwest = { version = "=0.13.5", default-features = false, features = ["json", "query", "form"] }
serde_json = "=1.0.151"
async-trait = "=0.1.92"
log = "=0.4.34"
