[package]
name = "deno_isolate"
version = "0.1.0"
edition = "2021"
publish = false

[dependencies]
futures = "0.1"
libc = "0.2"
tokio = "0.1"
