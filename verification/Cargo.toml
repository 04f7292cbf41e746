[package]
name = "falafels"
version = "0.1.0"
edition = "2021"
publish = false

[dependencies]
uuid = { version = "1", features = ["v4"] }
rand = "0.8"
serde = { version = "1", features = ["derive"] }
serde_json = "1"
quick-xml = { version = "*", features = ["serialize"] }
clap = { version = "4", features = ["derive"] }
regex = "1"
itertools = "*"
plotly = "*"
