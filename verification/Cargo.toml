[package]
name = "chksum_cli"
version = "0.1.0"
edition = "2021"
publish = false

[dependencies]
anyhow = "*"
chksum = "*"
clap = { version = "*", features = ["derive"] }
colored = "*"
rayon = "*"

[dev-dependencies]
assert_fs = "*"
