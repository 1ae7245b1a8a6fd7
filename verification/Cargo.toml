[package]
name = "fngbot"
version = "0.1.0"
edition = "2021"
publish = false

[dependencies]
hmac = "*"
sha2 = "*"
hex = "*"
serde = { version = "*", features = ["derive"] }
serde_json = "*"
serde_urlencoded = "*"
actix-web = { version = "*", default-features = false, features = ["macros"] }
reqwest = { version = "*", default-features = false }
lettre = { version = "*", default-features = false, features = ["smtp-transport", "builder"] }
toml = "*"
mysql = "*"
time = "*"
ammonia = "*"
