[package]
name = "wayland_test_clients"
version = "0.1.0"
edition = "2021"
publish = false

[dependencies]
smithay-client-toolkit = "*"
wayland-client = "*"
wayland-protocols = { version = "*", features = ["client", "unstable", "staging"] }
libc = "*"

[dev-dependencies]
xkeysym = "*"
