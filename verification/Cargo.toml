[package]
name = "imgui_backends"
version = "0.1.0"
edition = "2021"
publish = false

[dependencies]
imgui = "=0.7.0"
log = "=0.4.34"
thiserror = "=1.0.69"
anyhow = "=1.0.104"
glow = "=0.7.2"
fna3d = "*"
rokol = "*"
