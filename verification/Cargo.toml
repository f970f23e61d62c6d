[package]
name = "rainbowctl"
version = "0.1.0"
edition = "2021"
publish = false

[dependencies]
anyhow = "=1.0.104"
futures-util = { version = "=0.3.34", features = ["channel"] }
palette = "=0.7.7"
rs_ws281x = "=0.5.1"
serde = { version = "*", features = ["derive"] }
tokio = { version = "=1.53.2", features = ["full"] }
warp = { version = "=0.4.3", features = ["server"] }
