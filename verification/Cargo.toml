[package]
name = "git_mirror"
version = "0.1.0"
edition = "2021"
publish = false

[dependencies]
anyhow = "1"
dirs = "*"
eframe = { version = "*", default-features = false, features = ["glow", "default_fonts", "x11"] }
git2 = { version = "*", default-features = false }
rfd = { version = "*", default-features = false, features = ["xdg-portal", "tokio"] }
serde = { version = "1", features = ["derive"] }
toml = "*"

[dev-dependencies]
tempfile = "*"
