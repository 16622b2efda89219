[package]
name = "crows_note_md"
version = "0.1.0"
edition = "2021"
publish = false

[dependencies]
eframe = { version = "0.29", default-features = false, features = ["default_fonts", "glow", "x11"] }
pulldown-cmark = { version = "0.12", default-features = false, features = ["html"] }
walkdir = "2"
