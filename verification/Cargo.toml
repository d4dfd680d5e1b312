[package]
name = "dioxus_ratatui"
version = "0.1.0"
edition = "2021"
publish = false

[dependencies]
ratatui = "0.26"
crossterm = { version = "0.27", features = ["event-stream"] }
dioxus = { version = "0.5", default-features = false, features = ["macro", "html", "hooks", "signals"] }
futures = "0.3"
tokio = { version = "1", features = ["rt", "macros", "time"] }
