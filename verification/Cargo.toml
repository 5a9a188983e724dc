[package]
name = "mxp_agents"
version = "0.1.0"
edition = "2021"
publish = false

[dependencies]
uuid = { version = "*", features = ["v4"] }
chrono = "*"
serde = { version = "*", features = ["derive"] }
serde_json = "*"
tokio = { version = "*", features = ["rt", "rt-multi-thread", "macros", "time", "sync"] }
futures = "*"
async-trait = "*"
tracing = "*"

[dev-dependencies]
