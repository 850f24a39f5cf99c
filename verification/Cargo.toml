[package]
name = "kv_torture"
version = "0.1.0"
edition = "2021"
publish = false

[dependencies]
rand = "0.8"
rand_pcg = "0.3"
libmdbx = "*"
rocksdb = "*"
anyhow = "1"
clap = { version = "4", features = ["derive"] }
