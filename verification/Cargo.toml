[package]
name = "promptgen"
version = "0.1.0"
edition = "2021"
publish = false

[dependencies]
anyhow = "=1.0.104"
clap = { version = "=4.6.7", features = ["derive"] }
code-context = "=0.23.0"
dotenvy = "=0.15.7"
tokio = { version = "=1.53.2", features = ["macros", "rt-multi-thread"] }
