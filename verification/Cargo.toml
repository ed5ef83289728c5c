[package]
name = "liquid_scan"
version = "0.1.0"
edition = "2021"
publish = false

[dependencies]
datafusion = { version = "=53.1.0", default-features = false, features = ["parquet"] }
datafusion-datasource = { version = "=53.1.0", default-features = false }
futures = "0.3"
log = "0.4"
object_store = { version = "0.13", default-features = false }
parquet = { version = "58", default-features = false, features = ["arrow"] }
prost = "0.14"
tokio = { version = "1", features = ["rt", "rt-multi-thread"] }

[dev-dependencies]
arrow = { version = "58", default-features = false }
arrow-schema = "58"
bytes = "1"
