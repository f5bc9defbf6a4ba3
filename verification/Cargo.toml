[package]
name = "lazy_db"
version = "1.2.1"
edition = "2021"
publish = false

[dependencies]
walkdir = "2"
tar = "0.4"
flate2 = "1"
