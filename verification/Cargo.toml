[package]
name = "zentui"
version = "0.1.0"
edition = "2021"
publish = false

[dependencies]
anyhow = "*"
clap = { version = "*", features = ["derive"] }
edit = "*"
flexi_logger = "*"
futures = "*"
im = "*"
keyring = "*"
log = "*"
once_cell = "*"
palette = "*"
reqwest = { version = "*", default-features = false, features = ["json", "gzip"] }
serde = "*"
serde_derive = "*"
tempfile = "*"
tokio = { version = "*", features = ["rt-multi-thread", "macros"] }
unicode-width = "*"
zi = "*"
