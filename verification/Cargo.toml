[package]
name = "cliobulk"
version = "0.1.0"
edition = "2021"
publish = false

[dependencies]
base64 = "*"
image = "*"
imageproc = "*"
log = "*"
rawloader = "*"
rayon = "*"
serde = { version = "*", features = ["derive"] }
tokio = { version = "*", features = ["rt", "rt-multi-thread", "sync"] }
