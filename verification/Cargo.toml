[package]
name = "xiao_sense"
version = "0.1.0"
edition = "2021"
publish = false

[dependencies]
heapless = "=0.8.0"
defmt = "=1.2.0"
defmt-rtt = "=1.3.1"
panic-probe = { version = "=1.0.0", features = ["print-defmt"] }
embassy-executor = "=0.9.1"
embassy-futures = "=0.1.2"
embassy-sync = "=0.8.0"
embassy-time = "=0.5.1"
embassy-nrf = { version = "=0.11.0", features = ["nrf52840", "time-driver-rtc1"] }
