[package]
name = "nice_log"
version = "0.1.0"
edition = "2021"
publish = false

[dependencies]
log = { version = "0.4", features = ["std"] }
time = { version = "0.3", features = ["local-offset", "formatting", "macros"] }
once_cell = "1"
parking_lot = "0.12"
crossbeam = "0.8"
crossbeam-utils = "0.8"
egui = "*"
baseview = "*"
egui-baseview = "*"
iced_baseview = "*"
