[package]
name = "hass"
version = "0.1.0"
edition = "2021"
publish = false

[dependencies]
bstr = "=1.13.1"
chrono = { version = "=0.4.45", features = ["serde"] }
color-eyre = "=0.6.5"
dptree = "=0.3.0"
envy = "=0.4.2"
eyre = "=0.6.14"
http = "=1.5.0"
http-serde-ext = "=1.0.2"
once_cell = "=1.21.4"
reqwest = { version = "=0.11.27", features = ["json"] }
serde = { version = "=1.0.229", features = ["derive"] }
serde_json = "=1.0.154"
# Not used directly: teloxide-core asks for takecell 0.1, and 0.1.2 needs Rust 1.96.
takecell = "=0.1.1"
teloxide = { version = "=0.12.2", features = ["macros"] }
thiserror = "=1.0.69"
tokio = { version = "=1.54.1", features = ["macros", "rt-multi-thread"] }
tracing = "=0.1.44"
tracing-forest = "=0.1.6"

[dev-dependencies]
hyper = "=0.14.32"
