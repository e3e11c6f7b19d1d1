[package]
name = "rse_assets"
version = "0.1.0"
edition = "2021"
publish = false
