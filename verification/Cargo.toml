[package]
name = "sql_ast"
version = "0.1.0"
edition = "2021"
publish = false

[dependencies]
aho-corasick = "1"
minivec = "*"
serde = { version = "1", features = ["derive"] }
strum = { version = "0.26", features = ["derive"] }
