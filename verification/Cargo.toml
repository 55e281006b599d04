[package]
name = "frogger"
version = "0.1.0"
edition = "2021"
publish = false

[dependencies]
num = { version = "=0.4.3", default-features = false }
pc-keyboard = "=0.8.0"
pluggable_interrupt_os = "=0.5.3"
