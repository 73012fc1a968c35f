[package]
name = "agent_core"
version = "0.1.0"
edition = "2021"
publish = false

[dependencies]
meval = "=0.2.0"
serde = { version = "=1.0.229", features = ["derive"] }
serde_json = "=1.0.151"
schemars = "=1.2.2"
thiserror = "=2.0.21"
anyhow = "=1.0.104"
futures = "=0.3.34"
reqwest = { version = "=0.13.5", default-features = false, features = ["json"] }
rig-core = { version = "=0.44.0", features = ["reqwest"] }
