[package]
name = "simple_transcribe_rs"
version = "0.1.0"
edition = "2021"
publish = false

[dependencies]
symphonia = { version = "0.5", features = ["mp3"] }
whisper-rs = "*"
tokio = { version = "1", features = ["rt", "macros", "rt-multi-thread"] }
reqwest = { version = "*", default-features = false, features = ["rustls-tls"] }
