[package]
name = "ragu_pcd"
version = "0.1.0"
edition = "2021"
publish = false

[dependencies]
ff = "=0.13.1"
group = "=0.13.0"
pasta_curves = "=0.5.2"
proc-macro2 = "1"
quote = "1"
rand = "=0.8.8"
syn = { version = "2", features = ["full"] }
