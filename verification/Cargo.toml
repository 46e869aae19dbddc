[package]
name = "external_packages"
version = "0.1.0"
edition = "2021"
publish = false

[dependencies]
anyhow = "1"
dirs = "5"
tower-lsp = "0.20"
tracing = "0.1"
typst = "0.11"
