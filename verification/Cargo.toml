[package]
name = "pack_it"
version = "0.1.0"
edition = "2021"
publish = false

[dependencies]
anyhow = "1"
arrow2 = { version = "0.16", default-features = false, features = ["io_parquet"] }
crossbeam-channel = "0.5"
log = "0.4"
