[package]
name = "camilla_engine"
version = "0.1.0"
edition = "2021"
publish = false

[dependencies]
crossbeam-channel = "=0.5.17"
flexi_logger = "=0.31.10"
log = "0.4"
parking_lot = "=0.12.5"
signal-hook = "=0.4.6"
wasapi = "*"
