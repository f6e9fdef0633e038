[package]
name = "pdf_split"
version = "0.1.0"
edition = "2021"
publish = false

[dependencies]
lopdf = "0.27"
eframe = "0.18"
rfd = "0.9"
