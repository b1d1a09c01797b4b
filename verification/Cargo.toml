[package]
name = "cargo_lens"
version = "0.1.0"
edition = "2021"
publish = false

[dependencies]
cargo_metadata = "0.15"
crossbeam = "0.8"
crossterm = "0.26"
ratatui = "0.22"
libc = "0.2"
non-empty-vec = "0.2"
