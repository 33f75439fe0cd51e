[package]
name = "epsilon_templates"
version = "0.1.0"
edition = "2021"
publish = false

[dependencies]
zip = { version = "0.6", default-features = false }
serde_json = "1"
serde = { version = "1", features = ["derive"] }
tar = "0.4"
glob = "0.3"
bollard = "*"
futures-util = "0.3"
rocket = { version = "0.5", features = ["json"] }
