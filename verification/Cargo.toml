[package]
name = "search_tiers"
version = "0.1.0"
edition = "2021"
publish = false

[dependencies]
tantivy = "0.19"
pickledb = "0.5"
serde = { version = "1", features = ["derive"] }
serde_json = "1"
serde_qs = { version = "0.10", features = ["warp"] }
warp = "0.3"
tokio = { version = "1", features = ["macros", "rt-multi-thread", "sync"] }
anyhow = "1"

[dev-dependencies]
tempfile = "3"
