[package]
name = "nova"
version = "0.1.0"
edition = "2021"
publish = false

[dependencies]
ariadne = "0.4"
clap = { version = "4", features = ["derive"] }
dashmap = "5"
thiserror = "1"
tokio = { version = "1", features = ["full"] }
tower-lsp = "0.20"
