[package]
name = "flo_anim_store"
version = "0.1.0"
edition = "2021"
publish = false

[dependencies]
itertools = "0.8"
rusqlite = "*"
desync = "*"
futures = "0.1"
flo_curves = "*"
