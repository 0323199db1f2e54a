[package]
name = "imgui_wgpu_winit"
version = "0.1.0"
edition = "2021"
publish = false

[dependencies]
imgui = { version = "=0.12.0", features = ["docking"] }
imgui-wgpu = "=0.25.0"
wgpu = "=25.0.2"
winit = "=0.29.15"
raw-window-handle = "=0.6.2"
