[package]
name = "sanscript"
version = "0.1.0"
edition = "2021"
publish = false

[dependencies]
ruby-sys = "*"
