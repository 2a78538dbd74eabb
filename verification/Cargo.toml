[package]
name = "git-hist"
version = "1.1.0"
edition = "2021"
publish = false

[dependencies]
anyhow = "1"
clap = { version = "4", features = ["derive"] }
crossterm = "0.28"
git2 = { version = "*", default-features = false }
