[package]
name = "appstream"
version = "0.1.0"
edition = "2021"
publish = false

[dependencies]
chrono = { version = "=0.4.45", default-features = false, features = ["std"] }
flate2 = "=1.1.10"
serde = { version = "=1.0.229", features = ["derive"] }
url = "=2.5.8"
xmltree = { version = "=0.10.3", features = ["attribute-order"] }
yaml-rust = "=0.4.5"
