[package]
name = "rsfrac"
version = "0.1.0"
edition = "2021"
publish = false

[dependencies]
num-traits = "=0.2.19"
ratatui = { version = "=0.29.0", features = ["unstable-rendered-line-info"] }
tui-scrollview = "=0.5.3"
tui-input = "=0.11.1"
tui-markup = { version = "=0.5.0", features = ["ratatui", "ansi"] }
ansi_term = "=0.12.1"
chrono = "=0.4.45"
futures = "=0.3.34"
image = { version = "=0.25.10", default-features = false, features = ["png", "jpeg", "rayon"] }
wgpu = { version = "=23.0.1", default-features = false, features = ["wgsl"] }
reqwest = { version = "=0.12.28", default-features = false, features = ["blocking"] }
rug = "=1.30.0"
