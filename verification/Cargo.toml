[package]
name = "ya_player"
version = "0.1.0"
edition = "2021"
publish = false

[dependencies]
serde_json = "1"
md5 = "0.8"
serde = { version = "1", features = ["derive"] }
directories = "6"
reqwest = { version = "0.13", default-features = false, features = ["blocking", "json"] }
rodio = { version = "0.22", default-features = false, features = ["playback", "mp3"] }
open = "5"
global-hotkey = "0.8"
eframe = { version = "0.36", default-features = false, features = ["default_fonts", "glow", "x11"] }
egui = "0.36"
