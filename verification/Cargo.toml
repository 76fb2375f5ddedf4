[package]
name = "local_file_kv_store"
version = "0.1.0"
edition = "2021"
publish = false

[dependencies]
bytes = "1"
log = "0.4"
