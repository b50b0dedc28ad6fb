[package]
name = "cruzalex-themes"
version = "0.1.0"
edition = "2021"
publish = false

[dependencies]
anyhow = "1"
clap = { version = "4", features = ["derive"] }
crossterm = "0.28"
dirs = "5"
git2 = { version = "0.19", default-features = false }
image = { version = "0.25", default-features = false, features = ["png", "jpeg"] }
ratatui = "0.29"
ratatui-image = { version = "4", default-features = false, features = ["crossterm"] }
reqwest = { version = "0.12", default-features = false, features = ["json", "rustls-tls"] }
serde = { version = "1", features = ["derive"] }
tokio = { version = "1", features = ["rt-multi-thread", "macros", "sync", "time"] }
toml = "0.8"
