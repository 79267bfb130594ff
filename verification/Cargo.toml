[package]
name = "theme_style"
version = "0.1.0"
edition = "2021"
publish = false

[dependencies]
json = "=0.12.4"
tincture = "=0.5.0"
