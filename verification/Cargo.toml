[package]
name = "hive_defense"
version = "0.1.0"
edition = "2021"
publish = false

[dependencies]
macroquad = { version = "=0.4.16", default-features = false }
