[package]
name = "wayland_spectre"
version = "0.4.1"
edition = "2021"
publish = false

[dependencies]
owo-colors = "4"
supports-color = "3"
clap = { version = "4", features = ["derive"] }
tokio = { version = "1", features = ["rt-multi-thread", "macros", "time"] }
zbus = { version = "5", default-features = false, features = ["tokio"] }
futures-util = "0.3"
wayland-client = "0.31"
serde = { version = "1", features = ["derive"] }
serde_json = "1"
chrono = "0.4"
thiserror = "1"
