[package]
name = "foobar_service"
version = "0.1.0"
edition = "2021"
publish = false

[dependencies]
eyre = "*"
fern = "*"
log = "*"
serde = { version = "*", features = ["derive"] }
serde_repr = "*"
tokio = { version = "*", features = ["rt", "net"] }
zbus = { version = "*", features = ["tokio"] }
