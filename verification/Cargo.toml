[package]
name = "raclettui"
version = "0.1.0"
edition = "2021"
publish = false

[dependencies]
xkbcommon = "=0.9.0"
ratatui-core = "=0.1.2"
wayland-client = { version = "=0.31.15", features = ["system", "dlopen"] }
wayland-protocols-wlr = { version = "=0.3.12", features = ["client"] }
tempfile = "=3.27.0"
fontdue = "=0.9.5"
pollster = "=1.0.1"
bytemuck = { version = "=1.25.2", features = ["derive"] }
raw-window-handle = "=0.6.2"
glow = "=0.18.0"
glutin = "=0.32.3"
glyphon = "=0.12.0"
wgpu = { version = "=30.0.1", default-features = false, features = ["wgsl", "gles"] }
