[package]
name = "caption_mux"
version = "0.1.0"
edition = "2021"
publish = false

[dependencies]
serde = { version = "1", features = ["derive"] }
serde_json = "1"
serde_yaml = "0.9"
once_cell = "1"
tokio = { version = "1", features = ["macros", "rt-multi-thread", "sync"] }
