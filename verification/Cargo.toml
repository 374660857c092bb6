[package]
name = "sbom_rs"
version = "0.1.0"
edition = "2021"
publish = false

[dependencies]
petgraph = "*"
path-clean = "*"
clap = { version = "*", features = ["derive"] }
serde = { version = "*", features = ["derive"] }
serde_json = "*"
glob = "*"
rayon = "*"
itertools = "*"
tracing = "*"
tracing-subscriber = "*"
