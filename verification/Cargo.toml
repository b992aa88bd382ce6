[package]
name = "feature_flags"
version = "0.1.0"
edition = "2021"
publish = false

[dependencies]
rusqlite = { version = "=0.40.2", features = ["bundled"] }
serde = { version = "*", features = ["derive"] }
serde_derive = "*"
tokio = { version = "=1.53.2", features = ["macros", "rt-multi-thread", "sync"] }
warp = { version = "=0.4.3", features = ["server"] }
log = "*"
pretty_env_logger = "*"
