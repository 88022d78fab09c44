[package]
name = "parquet_row_group_stats"
version = "0.1.0"
edition = "2021"
publish = false

[dependencies]
parquet = { version = "*", default-features = false }
bytes = "*"
tokio = { version = "*", features = ["rt", "macros", "io-util", "io-std"] }
futures = "*"
async-stream = "*"

[dev-dependencies]
serde_json = "*"
