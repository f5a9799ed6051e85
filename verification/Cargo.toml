[package]
name = "libwindi"
version = "0.1.0"
edition = "2021"
publish = false

[dependencies]
serde = { version = "*", features = ["derive"] }
serde_json = "*"
reqwest = { version = "*", default-features = false }
tokio = { version = "*", features = ["rt", "rt-multi-thread", "macros", "time"] }
structopt = "*"
log = "*"
pretty_env_logger = "*"

[dev-dependencies]
hex = "*"
