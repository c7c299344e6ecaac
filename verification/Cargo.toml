[package]
name = "embedded_services"
version = "0.1.0"
edition = "2021"
publish = false

[dependencies]
bitfield = "0.17.0"
heapless = "0.8.0"
embassy-sync = "0.7.2"
embassy-futures = "0.1.2"
embassy-time = "0.5.1"
embedded-hal = "1.0.0"
embedded-hal-async = "1.0.0"
embedded-mcu-hal = "0.3.0"

[dev-dependencies]
embedded-hal-mock = "0.11.1"
