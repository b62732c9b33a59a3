[package]
name = "quickrjs"
version = "0.1.0"
edition = "2021"
publish = false

[dependencies]
quick-error = "*"
rquickjs-sys = "*"
