[package]
name = "dont_chill_out"
version = "0.1.0"
edition = "2021"
publish = false

[dependencies]
bevy = { version = "=0.14.2", default-features = false, features = ["bevy_asset", "bevy_state"] }
bevy_rapier2d = { version = "=0.27.0", default-features = false, features = ["dim2", "headless"] }
console_error_panic_hook = "=0.1.7"
serde = { version = "=1.0.229", features = ["derive"] }
serde_json = "=1.0.154"
thiserror = "=1.0.69"
