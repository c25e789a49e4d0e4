[package]
name = "anime_cli"
version = "0.1.0"
edition = "2021"
publish = false

[dependencies]
anyhow = "*"
clap = { version = "*", features = ["derive"] }
colored = "*"
reqwest = { version = "*", default-features = false, features = ["json"] }
serde = { version = "*", features = ["derive"] }
terminal_size = "*"
tokio = { version = "*", features = ["macros", "rt-multi-thread"] }
tui = "*"
