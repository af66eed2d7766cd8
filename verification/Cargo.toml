[package]
name = "logo_panes"
version = "0.1.0"
edition = "2021"
publish = false

[dependencies]
iced = { version = "=0.2.0", default-features = false, features = ["wgpu", "image"] }

[dev-dependencies]
iced_native = "=0.3.0"
