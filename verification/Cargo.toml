[package]
name = "query_rs"
version = "0.1.0"
edition = "2021"
publish = false

[dependencies]
anyhow = "=1.0.104"
async-trait = "=0.1.92"
polars = { version = "=0.48.1", features = ["lazy", "csv", "json", "new_streaming"] }
polars-plan = "=0.48.1"
reqwest = "=0.12.28"
sqlparser = "=0.57.0"
thiserror = "=2.0.21"
tokio = { version = "=1.54.1", features = ["fs", "rt", "rt-multi-thread", "macros"] }
