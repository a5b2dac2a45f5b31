[package]
name = "firehose_flags"
version = "0.1.0"
edition = "2021"
publish = false

[dependencies]
log = "0.4"
nom = "8.0.0"
