[package]
name = "visual_check"
version = "0.1.0"
edition = "2021"
publish = false

[dependencies]
image = { version = "*", default-features = false, features = ["png"] }
tokio = { version = "1", features = ["macros", "rt-multi-thread", "net", "process", "time"] }
fantoccini = "*"
anyhow = "1"
