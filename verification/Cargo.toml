[package]
name = "forge"
version = "0.2.0"
edition = "2021"
publish = false

[dependencies]
hecs = "0.10"
nom = "8"
thiserror = "2"
