[package]
name = "candle_vulkan"
version = "0.1.0"
edition = "2021"
publish = false

[dependencies]
vulkano = "0.35"
half = "2"
microfloat = "*"
parking_lot = "0.12"
rand = "0.9"
rand_distr = "0.5"
thiserror = "2"
tracing = "0.1"
