[package]
name = "tasbot_eyes"
version = "0.1.0"
edition = "2021"
publish = false

[dependencies]
gif = "*"
rand = "*"
clap = { version = "*", features = ["derive"] }
colored = "*"
ctrlc = "*"
log = "*"
serde = { version = "*", features = ["derive"] }
serde_json = "*"
rs_ws281x = "*"
