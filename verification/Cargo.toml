[package]
name = "port_scanner"
version = "0.1.0"
edition = "2021"
publish = false

[dependencies]
eframe = { version = "=0.27.2", default-features = false }
tokio = { version = "=1.54.1", features = ["net", "rt-multi-thread", "time"] }
