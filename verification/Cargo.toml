[package]
name = "packed_semver"
version = "0.1.0"
edition = "2021"
publish = false

[dependencies]
ulid = "*"
