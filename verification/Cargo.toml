[package]
name = "lc3_tm4c"
version = "0.1.0"
edition = "2021"
publish = false

[dependencies]
tm4c123x = { version = "0.9.2", default-features = false }
cortex-m = "0.7.10"
