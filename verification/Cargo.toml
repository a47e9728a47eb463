[package]
name = "git_prompt"
version = "0.1.0"
edition = "2021"
publish = false

[dependencies]
colorful = "=0.3.2"
git2 = { version = "=0.20.4", default-features = false }

[dev-dependencies]
tempfile = "3"
