[package]
name = "tof_array"
version = "0.1.0"
edition = "2021"
publish = false
