[package]
name = "bevy_smithay"
version = "0.1.0"
edition = "2021"
publish = false

[dependencies]
bevy = { version = "0.16", default-features = false, features = ["std", "bevy_window", "bevy_log"] }
raw-window-handle = "0.6"
smithay-client-toolkit = "0.19"
wayland-backend = { version = "0.3", features = ["client_system", "dlopen"] }
xkeysym = "0.2"
