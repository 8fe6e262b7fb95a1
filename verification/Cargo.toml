[package]
name = "componentize"
version = "0.1.0"
edition = "2021"
publish = false

[dependencies]
anyhow = "*"
clap = { version = "*", features = ["derive"] }
wasi-preview1-component-adapter-provider = "*"
wit-component = "*"

[dev-dependencies]
wasmparser = "*"
wat = "*"
