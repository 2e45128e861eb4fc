[package]
name = "cubixwm"
version = "0.1.0"
edition = "2021"
publish = false

[dependencies]
chrono = "=0.4.45"
drm = "=0.14.1"
rustix = { version = "=1.1.6", features = ["fs"] }
wayland-protocols = { version = "=0.32.13", features = ["server"] }
smithay = { version = "=0.7.0", default-features = false, features = ["wayland_frontend", "backend_winit", "renderer_gl"] }
