[package]
name = "glazier"
version = "0.2.0"
edition = "2021"
publish = false

[dependencies]
anyhow = "1"
ashpd = "0.5"
futures = "0.3"
keyboard-types = { version = "0.6", default-features = false }
kurbo = "0.9"
memchr = "2"
once_cell = "1"
raw-window-handle = "0.5"
smithay-client-toolkit = { version = "0.17", default-features = false, features = ["calloop"] }
thiserror = "1"
tracing = "0.1"
x11rb = { version = "0.12", features = ["present", "render", "xfixes", "xinput", "resource_manager", "cursor"] }
