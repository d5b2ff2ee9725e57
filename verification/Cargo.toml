[package]
name = "sa_token_guard"
version = "0.1.0"
edition = "2021"
publish = false

[dependencies]
urlencoding = "2"
serde_json = "1"
http = "1"
tower = { version = "0.5", default-features = false }
actix-web = { version = "4", default-features = false }
poem = { version = "3", default-features = false }
salvo = { version = "*", default-features = false }
tide = { version = "0.16", default-features = false }
