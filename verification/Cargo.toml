[package]
name = "qc_traits"
version = "0.1.0"
edition = "2021"
publish = false

[dependencies]
hifitime = "*"
gnss-rs = "*"
maud = "*"
thiserror = "*"
