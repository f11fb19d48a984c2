[package]
name = "m5stick"
version = "0.1.0"
edition = "2021"
publish = false

[dependencies]
embedded-hal = "=1.0.0"
embedded-hal-bus = "=0.3.0"
embedded-graphics = "=0.8.2"
embedded-storage-async = "=0.4.2"
embassy-embedded-hal = "*"
sequential-storage = "=8.0.2"
heapless = "=0.9.3"
trouble-host = { version = "=0.8.0", features = ["security"] }
embassy-time = "=0.5.1"
embassy-futures = "=0.1.2"
embassy-executor = "=0.10.0"
rand_core = "=0.6.4"
mipidsi = "=0.10.0"
esp-hal = "=1.1.2"
esp-println = "=0.18.0"
esp-radio = "=0.18.0"
esp-rtos = "=0.3.0"
esp-alloc = "=0.11.0"
esp-bootloader-esp-idf = "=0.6.0"
esp-storage = "*"
