[package]
name = "chombo_gen"
version = "0.1.0"
edition = "2021"
publish = false

[dependencies]
riichi_hand = "=0.7.0"
image = "=0.25.10"
serde_json = "=1.0.154"
tokio = { version = "=1.54.1", features = ["rt-multi-thread", "macros"] }
cot = { version = "=0.7.0", default-features = false, features = ["json", "openapi", "swagger-ui"] }
serde = { version = "=1.0.229", features = ["derive"] }
bytes = "=1.12.1"
tracing = "=0.1.44"
log = "=0.4.34"
chrono = "=0.4.45"
time = "=0.3.55"
async-trait = "=0.1.92"
tracing-subscriber = { version = "0.3", features = ["env-filter"] }
schemars = { version = "1", features = ["derive"] }
indexmap = "=2.14.2"
