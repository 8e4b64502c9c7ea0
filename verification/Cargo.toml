[package]
name = "optee_teec"
version = "0.2.0"
edition = "2021"
publish = false

[dependencies]
hex = "=0.4.3"
libc = "=0.2.190"
proc-macro2 = "=0.4.30"
quote = "=0.6.13"
syn = { version = "=0.15.44", features = ["full"] }
