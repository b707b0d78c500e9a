[package]
name = "load_manager"
version = "0.1.0"
edition = "2021"
publish = false

[dependencies]
clap = { version = "4", features = ["derive"] }
encoding_rs = "0.8"
gc-arena = "0.2"
generational-arena = "0.2"
swf = "*"
thiserror = "1"
tracing = "0.1"
url = "2"
