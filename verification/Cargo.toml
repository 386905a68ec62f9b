[package]
name = "webserver"
version = "0.1.0"
edition = "2021"
publish = false

[dependencies]
serde = { version = "1", features = ["derive"] }
serde_json = { version = "1", features = ["raw_value"] }
axum = "0.7"
axum-extra = { version = "0.9", features = ["query"] }
axum-macros = "0.4"
tokio = { version = "1", features = ["full"] }
futures = "0.3"
clap = { version = "4", features = ["derive", "env"] }
anyhow = "1"
diesel = { version = "2", features = ["postgres", "r2d2"] }
async-trait = "0.1"
tikv-jemallocator = "0.6"
