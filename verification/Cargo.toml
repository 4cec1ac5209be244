[package]
name = "a2dp_source"
version = "0.1.0"
edition = "2021"
publish = false

[dependencies]
heapless = "*"
portable-atomic = "*"
bt-hci = "*"
embedded-io = "*"
embedded-io-async = "*"
defmt = "*"
defmt-rtt = "*"
panic-probe = "*"
static_cell = "*"
cyw43 = "*"
cyw43-pio = "*"
embassy-executor = "*"
embassy-rp = { version = "*", features = ["rp235xa"] }
embassy-time = "*"
