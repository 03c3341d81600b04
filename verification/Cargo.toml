[package]
name = "port_redirector"
version = "0.1.0"
edition = "2021"
publish = false

[dependencies]
clap = "4"
tokio = { version = "1", features = ["full"] }
tokio-serial = "5"
