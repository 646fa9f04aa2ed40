[package]
name = "widget_frame"
version = "0.1.0"
edition = "2021"
publish = false

[dependencies]
anyhow = "=1.0.104"
bytemuck = { version = "=1.25.2", features = ["derive"] }
tokio = { version = "=1.54.1", features = ["macros", "rt-multi-thread"] }
wgpu = "=0.16.3"
winit = "=0.28.7"

[dev-dependencies]
naga = { version = "=0.12.3", features = ["wgsl-in", "validate"] }
