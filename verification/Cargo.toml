[package]
name = "at_collection"
version = "0.1.0"
edition = "2021"

[dependencies]
failure = "0.1"
