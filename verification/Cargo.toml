[package]
name = "cgroups_v2"
version = "0.1.0"
edition = "2021"
publish = false

[dependencies]
anyhow = "1"
oci-spec = { version = "*", default-features = false, features = ["runtime"] }
