[package]
name = "mblp"
version = "0.1.0"
edition = "2021"
publish = false

[dependencies]
array-init = "2"
eframe = "0.18"
egui = "0.18"
heapless = "0.7"
log = "0.4"
serialport = { version = "4", default-features = false }
simplelog = "0.12"
time = { version = "0.3", features = ["formatting", "parsing"] }
