[package]
name = "rusqlite_mapper"
version = "0.1.0"
edition = "2021"
publish = false

[dependencies]
chrono = { version = "0.4", default-features = false, features = ["std"] }
darling = "0.20"
heck = "0.5"
proc-macro2 = "1"
quote = "1"
rusqlite = "*"
serde_json = "1"
syn = { version = "2", features = ["full"] }
url = "2"
uuid = "1"
