[package]
name = "zanei_macos"
version = "0.1.0"
edition = "2021"
publish = false

[dependencies]
thiserror = "2"
time = "0.3"
