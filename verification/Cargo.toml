[package]
name = "ssh_agent_client"
version = "0.1.0"
edition = "2021"
publish = false

[dependencies]
async-trait = "0.1"
futures = "0.3"
service-binding = "*"
ssh-key = "0.6"
tokio = { version = "1", features = ["net", "time"] }
tokio-util = { version = "0.7", features = ["codec"] }
