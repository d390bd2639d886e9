[package]
name = "hn_tui"
version = "0.1.0"
edition = "2021"
publish = false

[dependencies]
serde = { version = "1", features = ["derive"] }
tokio = { version = "1", features = ["rt-multi-thread", "macros"] }
reqwest = { version = "0.11", default-features = false, features = ["json"] }
futures = "0.3"
termion = "1.5"
tui = { version = "0.19", default-features = false, features = ["termion"] }
open = "*"
chrono = "0.4"
sanitize_html = "*"
