[package]
name = "guiorder"
version = "0.1.0"
edition = "2021"
publish = false

[dependencies]
gorder = "=1.0.0"
regex = "=1.13.1"
serde_yaml = "=0.9.34"
colog = "=1.4.0"
colored = "=3.1.1"
log = "=0.4.34"
thiserror = "=2.0.21"
eframe = { version = "=0.37.0", default-features = false, features = ["default_fonts", "glow", "x11"] }
rfd = { version = "=0.17.2", default-features = false, features = ["xdg-portal"] }
