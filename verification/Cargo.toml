[package]
name = "traceback_derive"
version = "0.1.0"
edition = "2021"
publish = false

[dependencies]
syn = { version = "2", features = ["full", "visit-mut", "proc-macro"] }
quote = "1"
proc-macro2 = "1"
