[package]
name = "tui_runtime"
version = "0.1.0"
edition = "2021"
publish = false

[dependencies]
anyhow = "1"
better-panic = "0.3"
clap = { version = "4", features = ["cargo"] }
colored = "2"
directories = "5"
libc = "0.2"
log = "0.4"
tokio = { version = "1", features = ["rt", "macros", "sync", "time", "io-std", "io-util"] }
tracing = "0.1"
tracing-subscriber = { version = "0.3", features = ["env-filter"] }
tui-logger = { version = "*", features = ["tracing-support"] }
