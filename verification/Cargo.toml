[package]
name = "ziphere"
version = "0.1.0"
edition = "2021"
publish = false

[dependencies]
sevenz-rust2 = { version = "=0.23.0", features = ["deflate"] }
walkdir = "=2.5.0"
fs-err = "=3.3.2"
clap = { version = "=4.6.7", features = ["derive"] }
thiserror = "=2.0.21"

[dev-dependencies]
tempfile = "=3.27.0"
