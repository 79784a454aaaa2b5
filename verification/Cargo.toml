[package]
name = "egui_pipe"
version = "0.1.0"
edition = "2021"
publish = false

[dependencies]
egui = "=0.22.0"
euclid = "=0.22.14"
log = "=0.4.34"
wgpu = "=0.13.1"
pigeon-2d = "=0.5.0"
pigeon-parrot = "=0.4.2"

[dependencies.bytemuck]
version = "=1.25.2"
features = ["derive"]
