[package]
name = "clock_synchronization"
version = "0.1.0"
edition = "2021"
publish = false

[dependencies]
chrono = "=0.4.45"
poll-promise = "=0.3.0"
eframe = "0.19"
egui_extras = "0.19"
