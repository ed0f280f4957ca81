[package]
name = "signals"
version = "0.1.0"
edition = "2021"
publish = false

[dependencies]
eframe = { version = "=0.20.1", default-features = false, features = ["glow"] }
egui = { version = "=0.20.1", default-features = false }
flume = { version = "=0.10.14", default-features = false }
num-traits = "=0.2.19"
parking_lot = "=0.12.5"
spectrum-analyzer = "=1.9.0"
