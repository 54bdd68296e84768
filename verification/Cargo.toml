[package]
name = "structured_clone"
version = "0.1.0"
edition = "2021"
publish = false

[dependencies]
deno_core = "*"
deno_error = "*"
thiserror = "2"
