[package]
name = "openlogi"
version = "0.1.0"
edition = "2021"
publish = false

[dependencies]
anyhow = "1"
async-hid = "0.4"
clap = { version = "4", features = ["derive"] }
core-graphics = "*"
directories = "*"
futures-lite = "2"
hidpp = "0.2"
serde = { version = "1", features = ["derive"] }
serde_json = "1"
sha2 = "0.10"
thiserror = "*"
tokio = { version = "1", features = ["macros", "rt", "time", "sync"] }
toml = "*"
tracing = "0.1"
tracing-subscriber = { version = "0.3", features = ["env-filter", "fmt"] }
ureq = "3"
