[package]
name = "photolibrariancore"
version = "0.1.0"
edition = "2021"
publish = false

[dependencies]
duckdb = "=1.10505.0"
once_cell = "=1.21.4"
tokio = { version = "=1.54.1", features = ["full"] }
uniffi = { version = "=0.28.3", features = ["cli", "build"] }

[dev-dependencies]
tempfile = "=3.27.0"
