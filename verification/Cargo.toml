[package]
name = "chippie_emulator"
version = "0.1.0"
edition = "2021"
publish = false

[dependencies]
rand = "0.9"
rand_chacha = "0.9"
iced = { version = "0.14", default-features = false, features = ["canvas", "tiny-skia", "tokio", "x11"] }
iced_aw = { version = "*", default-features = false, features = ["menu"] }
rfd = { version = "*", default-features = false, features = ["xdg-portal", "tokio"] }
