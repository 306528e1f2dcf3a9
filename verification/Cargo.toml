[package]
name = "iox_resolver"
version = "0.1.0"
edition = "2021"
publish = false

[dependencies]
nom = "=7.1.3"
nu-protocol = "=0.115.1"
