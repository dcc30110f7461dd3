[package]
name = "slimjelly"
version = "0.2.0"
edition = "2021"
publish = false

[dependencies]
url = "2"
uuid = { version = "1", features = ["v4"] }
argon2 = { version = "0.5", default-features = false, features = ["alloc"] }
chacha20poly1305 = { version = "0.10", default-features = false, features = ["alloc"] }
base64 = "0.22"
getrandom = "0.3"
serde = { version = "1", features = ["derive"] }
serde_json = "1"
toml = "0.8"
directories = "6"
thiserror = "2"
log = "0.4"
tokio = { version = "1", features = ["rt-multi-thread", "net", "time", "io-util"] }
reqwest = { version = "0.12", default-features = false, features = ["json", "rustls-tls"] }
image = { version = "0.25", default-features = false, features = ["png"] }
eframe = { version = "0.31", default-features = false, features = ["glow", "x11", "default_fonts"] }
winit = { version = "0.30", default-features = false, features = ["x11"] }
