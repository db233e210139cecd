[package]
name = "broker_server"
version = "0.1.0"
edition = "2021"
publish = false

[dependencies]
anyhow = "=1.0.104"
bollard = { version = "0.5", default-features = false }
directories = "=2.0.2"
futures = "=0.3.34"
futures-util = "=0.3.34"
quinn = "=0.6.2"
rcgen = "=0.8.14"
rmp-serde = "=1.3.1"
serde = { version = "=1.0.229", features = ["derive"] }
structopt = "=0.3.26"
tokio = { version = "=0.2.25", features = ["full"] }
tracing = "=0.1.44"
tracing-futures = { version = "=0.2.5", default-features = false, features = ["std-future"] }
tracing-subscriber = "=0.2.25"
