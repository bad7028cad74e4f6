[package]
name = "st7789_display"
version = "0.1.0"
edition = "2021"
publish = false

[dependencies]
embedded-graphics-core = "=0.4.1"
display-interface = "=0.5.0"
embedded-hal = "=1.0.0"
embedded-graphics = "=0.8.2"
display-interface-spi = "=0.5.0"
tinybmp = "=0.6.0"
heapless = "=0.8.0"
defmt = "=0.3.101"
defmt-rtt = "=0.4.2"
panic-probe = "=0.3.2"
cortex-m = "=0.7.10"
pio-proc = "=0.2.2"
pio = "=0.2.1"
embassy-rp = { version = "=0.2.0", features = ["time-driver"] }
embassy-executor = { version = "=0.6.3", features = ["arch-std", "executor-thread", "integrated-timers"] }
embassy-time = "=0.3.2"
embassy-sync = "=0.6.2"
embassy-embedded-hal = "=0.2.0"
