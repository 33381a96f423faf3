[package]
name = "datafusion_iceberg"
version = "0.1.0"
edition = "2021"
publish = false

[dependencies]
iceberg = "=0.10.1"
async-trait = "=0.1.92"
datafusion = { version = "=54.1.0", default-features = false }

[dev-dependencies]
tokio = { version = "=1.54.1", features = ["rt-multi-thread"] }
