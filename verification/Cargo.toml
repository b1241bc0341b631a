[package]
name = "pokedex"
version = "0.1.0"
edition = "2021"
publish = false

[dependencies]
rand = "0.8"
reqwest = { version = "*", default-features = false, features = ["blocking", "json"] }
serde = { version = "*", features = ["derive"] }
serde_json = "*"
Inflector = "*"
