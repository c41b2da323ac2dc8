[package]
name = "twenty"
version = "0.1.0"
edition = "2021"
publish = false

[dependencies]
iced = { version = "0.13", default-features = false, features = ["tiny-skia", "fira-sans"] }
image = { version = "0.25", default-features = false, features = ["png"] }
notify-rust = "4"
