[package]
name = "uuidland"
version = "0.1.0"
edition = "2021"
publish = false

[dependencies]
digest = "0.10"
md-5 = "0.10"
sha1 = "0.10"
rand = "0.8"
num-traits = "0.2"
thiserror = "1"
