[package]
name = "phalanx"
version = "0.1.0"
edition = "2021"
publish = false

[dependencies]
regex = "1"
syn = { version = "1", features = ["full", "extra-traits"] }
quote = "1"
proc-macro2 = "1"
serde = "1"
serde_json = "1"
futures = "0.3"
actix-web = { version = "*", default-features = false }
actix-service = "*"
reqwest = { version = "*", default-features = false }
err-derive = "*"
