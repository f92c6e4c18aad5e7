[package]
name = "interactive_shell"
version = "0.1.0"
edition = "2021"
publish = false

[dependencies]
dashmap = "*"
strip-ansi-escapes = "*"
uuid = { version = "*", features = ["v4"] }
serde = { version = "*", features = ["derive"] }
serde_json = "*"
portable-pty = "*"
