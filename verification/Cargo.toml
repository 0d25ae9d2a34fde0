[package]
name = "apis"
version = "0.1.0"
edition = "2021"
publish = false

[dependencies]
vec_map = "*"
marksman_escape = "*"
unbounded-spsc = "*"
log = "*"
colored = "*"
either = "*"
macro-machines = "*"
