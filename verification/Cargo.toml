[package]
name = "alarmclock"
version = "0.1.0"
edition = "2021"
publish = false

[dependencies]
smart-leds = "*"
moving_median = "*"
heapless = "*"
rand = "*"
sequential-storage = "*"
embassy-time = "*"
embassy-sync = "*"
embassy-futures = "*"
embassy-executor = "*"
embassy-rp = { version = "*", features = ["rp2040"] }
embassy-net = { version = "*", features = ["udp", "dns", "dhcpv4", "proto-ipv4", "medium-ethernet"] }
embassy-embedded-hal = "*"
cyw43 = "*"
cyw43-pio = "*"
embedded-graphics = "*"
tinybmp = "*"
dfplayer-async = "*"
ws2812-async = "*"
static_cell = "*"
defmt = "*"
defmt-rtt = "*"
panic-probe = "*"
assign-resources = "*"
reqwless = { version = "*", default-features = false }
