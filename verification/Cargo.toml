[package]
name = "vnikey"
version = "0.2.0"
edition = "2021"
publish = false

[dependencies]
serde = { version = "=1.0.229", features = ["derive"] }
toml = "=1.1.8"
directories = "=6.0.0"
ksni = { version = "=0.3.7", features = ["blocking"] }
zbus = { version = "=4.4.0", default-features = false, features = ["tokio"] }
tokio = { version = "=1.54.1", features = ["rt", "macros", "sync", "fs"] }
notify = "=8.2.1"
xkbcommon = { version = "=0.9.0", features = ["wayland", "x11"] }
wayland-client = "=0.31.15"
wayland-protocols-misc = { version = "=0.3.12", features = ["client"] }
rustix = { version = "=1.1.6", features = ["fs"] }
x11rb = { version = "=0.14.0", features = ["xtest", "allow-unsafe-code"] }
arboard = { version = "=3.7.0", default-features = false }
eframe = { version = "*", default-features = false, features = ["default_fonts", "glow", "x11", "wayland"] }
