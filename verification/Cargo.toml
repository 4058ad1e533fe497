[package]
name = "r2r_tracing"
version = "0.1.0"
edition = "2021"
publish = false

[dependencies]
lttng-ust = "*"
r2r_rcl = "*"
