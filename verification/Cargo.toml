[package]
name = "aibuddy"
version = "0.1.0"
edition = "2021"
publish = false

[dependencies]
chrono = "=0.4.45"
dotenvy = "=0.15.7"
reqwest = { version = "=0.11.27", features = ["json"] }
serde = { version = "=1.0.229", features = ["derive"] }
serde_json = "=1.0.154"
# teloxide-core asks for takecell 0.1; its 0.1.2 needs a newer compiler than
# the one this crate is built with, so it is held at 0.1.1.
takecell = "=0.1.1"
teloxide = { version = "=0.12.2", features = ["macros"] }
tiktoken-rs = "=0.5.9"
tokio = { version = "=1.54.1", features = ["macros", "rt-multi-thread"] }
