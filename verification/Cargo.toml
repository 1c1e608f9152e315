[package]
name = "keypad_core"
version = "0.1.0"
edition = "2021"
publish = false

[dependencies]
hash32 = "=0.2.1"
heapless = "=0.7.17"
usbd-hid = "=0.6.2"
