[package]
name = "homematic_rs"
version = "0.1.0"
edition = "2021"
publish = false

[dependencies]
clap = { version = "4", features = ["derive"] }
comfy-table = "*"
log = "0.4"
serde = { version = "1", features = ["derive"] }
serde_json = "1"
stderrlog = "*"
tokio = { version = "1", features = ["macros", "rt"] }
