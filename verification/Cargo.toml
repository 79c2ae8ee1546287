[package]
name = "codebase-context-graph"
version = "0.1.0"
edition = "2021"
publish = false

[dependencies]
chrono = "*"
rusqlite = "*"
serde = { version = "1", features = ["derive"] }
serde_json = "1"
sha2 = "*"
tree-sitter = "*"
tree-sitter-bash = "*"
tree-sitter-javascript = "*"
tree-sitter-python = "*"
tree-sitter-rust = "*"
tree-sitter-typescript = "*"
walkdir = "*"
