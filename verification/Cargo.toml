[package]
name = "consul_diff"
version = "0.1.0"
edition = "2021"
publish = false

[dependencies]
serde_yaml = "*"
clap = { version = "*", features = ["derive"] }
consulrs = "*"
tokio = { version = "*", features = ["macros", "rt-multi-thread"] }
