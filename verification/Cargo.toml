[package]
name = "qubit_retry"
version = "0.1.0"
edition = "2021"
publish = false

[dependencies]
rand = "*"
serde = { version = "*", features = ["derive"] }
parse-display = "*"
qubit-function = "*"
qubit-config = "*"
qubit-error = "*"
prism3-function = "*"
tokio = { version = "*", features = ["time"] }
