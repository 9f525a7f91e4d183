[package]
name = "hello_server"
version = "0.1.0"
edition = "2021"
publish = false

[dependencies]
threadpool = "*"
