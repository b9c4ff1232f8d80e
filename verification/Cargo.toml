[package]
name = "lsp_bridge"
version = "0.1.0"
edition = "2021"
publish = false

[dependencies]
crossbeam-channel = "*"
fnv = "*"
jsonrpc-core = "*"
lsp-types = "*"
serde_json = "*"
