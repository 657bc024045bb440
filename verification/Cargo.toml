[package]
name = "md2pdf"
version = "0.1.0"
edition = "2021"
publish = false

[dependencies]
anyhow = "1"
clap = { version = "4", features = ["derive"] }
indicatif = "*"
pulldown-cmark = { version = "*", default-features = false }
tempfile = "3"
thiserror = "*"
walkdir = "2"
