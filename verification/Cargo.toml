[package]
name = "plugin_supervisor"
version = "0.1.0"
edition = "2021"
publish = false

[dependencies]
serde = { version = "*", features = ["derive"] }
schemars = "*"
tracing = "*"
tower = "*"
async-trait = "*"
