[package]
name = "user_attributes"
version = "0.1.0"
edition = "2021"
publish = false

[dependencies]
anyhow = "*"
figment = { version = "*", features = ["toml", "env"] }
gloo-net = { version = "*", default-features = false, features = ["http", "json"] }
graphql_client = { version = "*", default-features = false }
serde = { version = "*", features = ["derive"] }
yew = "*"
