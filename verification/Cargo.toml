[package]
name = "sdrtail"
version = "0.1.0"
edition = "2021"
publish = false

[dependencies]
anyhow = "*"
dropshot = "*"
getopts = "*"
hyper = "*"
serde = { version = "*", features = ["derive"] }
serde_json = "*"
slog = "*"
tokio = { version = "*", features = ["macros", "rt-multi-thread"] }
