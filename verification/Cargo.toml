[package]
name = "cat_games_launcher"
version = "0.1.0"
edition = "2021"
publish = false

[dependencies]
anyhow = "1"
serde = { version = "1", features = ["derive"] }
serde_json = "1"
ureq = "3"
zip = { version = "*", default-features = false, features = ["deflate"] }
tar = "0.4"
ico = "=0.4.0"
image = { version = "0.25", default-features = false, features = ["png", "jpeg", "ico"] }
rfd = "=0.15.4"
