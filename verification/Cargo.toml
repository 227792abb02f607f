[package]
name = "codex_session_kit"
version = "0.1.0"
edition = "2021"
publish = false

[dependencies]
axum = { version = "=0.8.9", default-features = false }
rmcp = { version = "=0.15.0", default-features = false, features = ["base64", "client", "macros", "server"] }
serde = { version = "=1.0.229", features = ["derive"] }
serde_json = "=1.0.154"
tempfile = "=3.27.0"
time = { version = "=0.3.55", features = ["formatting", "parsing"] }
tracing = "=0.1.44"
which = "=8.0.6"
