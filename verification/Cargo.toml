[package]
name = "egui_inspect"
version = "0.1.0"
edition = "2021"
publish = false

[dependencies]
syn = { version = "=2.0.119", features = ["full"] }
proc-macro2 = "=1.0.107"
quote = "1"
egui = "=0.36.2"
