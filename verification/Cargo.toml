[package]
name = "renderdoc"
version = "0.2.0"
edition = "2021"
publish = false

[dependencies]
lazy_static = "1"
shared_library = "0.1"
winapi = "0.2"
