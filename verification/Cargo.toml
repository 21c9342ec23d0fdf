[package]
name = "sss"
version = "0.1.0"
edition = "2021"
publish = false

[dependencies]
anyhow = "1"
axum = "0.8"
clap = { version = "4", features = ["derive"] }
comrak = { version = "*", default-features = false }
glob = "0.3"
notify = "*"
serde_yaml_ng = "*"
tera = "1"
tokio = { version = "1", features = ["rt", "net"] }
tower-http = { version = "0.6", features = ["fs"] }
yansi = "1"

[dev-dependencies]
regex = "1"
