[package]
name = "formgen"
version = "0.1.0"
edition = "2021"
publish = false

[dependencies]
syn = "2"
quote = "1"
proc-macro2 = "1"
serde = { version = "1", features = ["derive"] }
maud = "0.27"
axum = "0.8"
tokio = { version = "1", features = ["rt-multi-thread", "macros", "net"] }
