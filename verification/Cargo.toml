[package]
name = "esp-miner"
version = "0.1.0"
edition = "2021"
publish = false

[dependencies]
defmt = "=0.3.101"
ds4432 = "=0.3.0"
embassy-embedded-hal = "=0.2.0"
embassy-executor = "=0.6.3"
embassy-net = { version = "=0.4.0", features = ["tcp", "dhcpv4", "medium-ethernet", "proto-ipv4"] }
embassy-sync = "=0.6.2"
embassy-time = "=0.3.2"
embedded-hal = "=0.2.7"
embedded-hal-async = "=1.0.0"
emc2101 = "=3.0.0"
esp-alloc = "=0.5.0"
esp-backtrace = { version = "=0.14.2", features = ["esp32s3"] }
esp-hal = { version = "=0.22.0", features = ["esp32s3"] }
esp-hal-embassy = { version = "=0.5.0", features = ["esp32s3"] }
esp-println = { version = "=0.12.0", features = ["esp32s3"] }
esp-wifi = { version = "=0.11.0", features = ["esp32s3", "wifi"] }
heapless = "=0.8.0"
ina260 = "=0.3.1"
static_cell = "=2.1.1"
stratum-v1 = "=0.1.0"
