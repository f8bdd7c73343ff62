[package]
name = "ce_core"
version = "0.1.0"
edition = "2021"
publish = false

[dependencies]
ansi-to-tui = "2"
crossterm = { version = "0.25", features = ["event-stream"] }
dirs-next = "2"
log = "0.4"
notify = "4"
reqwest = { version = "0.11", default-features = false, features = ["json"] }
serde_json = "1"
simplelog = "0.12"
structopt = "0.3"
tokio = { version = "1", features = ["macros", "rt-multi-thread", "sync", "time"] }
tokio-stream = "0.1"
tui = "0.19"
