[package]
name = "media_session_dump"
version = "0.1.0"
edition = "2021"
publish = false

[dependencies]
anyhow = "*"
tokio = { version = "*", features = ["rt", "rt-multi-thread", "macros"] }
windows = { version = "*", features = ["Media_Control", "Foundation", "Foundation_Collections", "Storage_Streams"] }
