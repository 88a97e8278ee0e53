[package]
name = "neoshare"
version = "0.1.0"
edition = "2021"
publish = false

[dependencies]
clap = { version = "=4.6.7", features = ["derive"] }
futures = "=0.3.34"
nvim-oxi = { version = "=0.6.0", features = ["neovim-0-11"] }
semaphore = "=0.4.0"
serde = { version = "=1.0.229", features = ["derive"] }
serde_json = "=1.0.154"
tokio = { version = "=1.54.1", features = ["full"] }
tungstenite = "=0.30.0"
uuid = { version = "=1.29.0", features = ["v4", "serde"] }
warp = "=0.3.7"
yrs = "=0.28.0"
