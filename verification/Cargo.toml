[package]
name = "substrate_differ"
version = "0.1.0"
edition = "2021"
publish = false

[dependencies]
comparable = "0.5"
frame-metadata = "15"
scale-info = "2"
