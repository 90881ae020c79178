[package]
name = "phasor"
version = "0.1.0"
edition = "2021"
publish = false

[dependencies]
softfp = "=0.1.0"
approx = "=0.5.1"
