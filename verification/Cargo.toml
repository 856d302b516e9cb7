[package]
name = "struct_box"
version = "0.1.0"
edition = "2021"
publish = false

[dependencies]
proc-macro2 = "=1.0.107"

[dev-dependencies]
serde = "=1.0.229"
strong-box = "=0.5.1"
