[package]
name = "sch16t"
version = "0.1.0"
edition = "2021"
publish = false

[dependencies]
crc = "3"
heapless = "0.8"
embedded-hal = "1"
embedded-hal-async = "1"
uom = "0.36"
