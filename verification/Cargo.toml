[package]
name = "tallis"
version = "0.1.0"
edition = "2021"
publish = false

[dependencies]
image = { version = "0.25", default-features = false, features = ["jpeg"] }
pdf-extract = "*"
anyhow = "1"
candle-core = "*"
candle-nn = "*"
clap = { version = "4", features = ["derive"] }
hf-hub = { version = "=0.4.3", default-features = false, features = ["ureq"] }
indicatif = "*"
num_cpus = "1"
rayon = "1"
serde = { version = "1", features = ["derive"] }
serde_json = "1"
tokenizers = { version = "*", default-features = false, features = ["onig"] }
uuid = { version = "1", features = ["v4"] }
walkdir = "2"
