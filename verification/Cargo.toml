[package]
name = "mango_tango"
version = "0.1.0"
edition = "2021"
publish = false

[dependencies]
anyhow = "1"
dashmap = "6"
dotenvy = "0.15"
once_cell = "1"
reqwest = "0.12"
serenity = { version = "0.12", features = ["voice"] }
songbird = { version = "0.5", features = ["builtin-queue"] }
tokio = { version = "1", features = ["macros", "rt-multi-thread", "signal", "process", "time", "sync"] }
tracing = "0.1"
tracing-subscriber = { version = "0.3", features = ["env-filter"] }
