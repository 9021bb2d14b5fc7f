[package]
name = "safe_once"
version = "0.1.0"
edition = "2021"
publish = false

[dependencies]
atomic = "*"
parking_lot = "0.12"
parking_lot_core = "0.9"
