[package]
name = "repo_sweeper"
version = "0.1.0"
edition = "2021"
publish = false

[dependencies]
git2 = { version = "=0.21.0", default-features = false }
inquire = "=0.9.4"
