[package]
name = "tile_db"
version = "0.1.0"
edition = "2021"
publish = false

[dependencies]
iron = "0.6"
persistent = "0.4"
r2d2 = "0.7"
r2d2_postgres = "0.12"
