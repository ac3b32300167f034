[package]
name = "layout_system"
version = "0.1.0"
edition = "2021"
publish = false

[dependencies]
cassowary = "0.3"
iset = "*"
log = "0.4"
