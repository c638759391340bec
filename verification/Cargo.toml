[package]
name = "impact_pipeline"
version = "0.1.0"
edition = "2021"
publish = false

[dependencies]
rustfft = "=6.4.1"
rodio = "=0.17.3"
hueclient = "=0.4.3"
