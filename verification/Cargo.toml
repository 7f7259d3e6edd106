[package]
name = "subcrawl"
version = "0.1.0"
edition = "2021"
publish = false

[dependencies]
reqwest = { version = "=0.13.5", default-features = false, features = ["blocking", "form", "json"] }
serde = "=1.0.229"
serde_derive = "=1.0.229"
