[package]
name = "temper_bridge"
version = "0.1.0"
edition = "2021"
publish = false

[dependencies]
hidapi = "*"
log = "*"
pretty_env_logger = "*"
rumqttc = "*"
serde = { version = "*", features = ["derive"] }
serde_json = "*"
tokio = { version = "*", features = ["macros", "rt-multi-thread", "time"] }
