[package]
name = "pawpad"
version = "0.1.0"
edition = "2021"
publish = false

[dependencies]
uuid = { version = "1", features = ["serde"] }
serde = { version = "1", features = ["derive"] }
thiserror = "2"
hidapi = "2"
pawkit-crockford = "*"
evdev = "0.13"
bitflags = "2"

[dev-dependencies]
serde_json = "1"
