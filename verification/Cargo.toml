[package]
name = "denarborea"
version = "0.1.0"
edition = "2021"
publish = false

[dependencies]
arrow = { version = "*", default-features = false }
arrow-array = "*"
chrono = "0.4"
clap = { version = "4", features = ["derive"] }
colored = "*"
crossterm = "*"
csv = "1"
dirs = "*"
git2 = { version = "*", default-features = false }
humansize = "2"
ignore = "0.4"
md5 = "*"
memmap2 = "*"
parquet = "*"
regex = "1"
serde = { version = "1", features = ["derive"] }
serde_json = "1"
serde_yaml = "0.9"
syntect = "5"
toml = "*"
walkdir = "2"
