[package]
name = "luau_transpiler"
version = "0.1.0"
edition = "2021"
publish = false

[dependencies]
clap = { version = "*", features = ["derive"] }
syn = { version = "*", features = ["full"] }
