[package]
name = "sputnik"
version = "0.1.0"
edition = "2021"
publish = false

[dependencies]
cortex-m = "=0.7.10"
defmt = "=1.2.0"
defmt-rtt = "=1.3.1"
ds18b20 = "=0.1.1"
embassy-executor = "=0.10.0"
embassy-stm32 = { version = "=0.6.0", features = ["stm32f103c8", "time-driver-any", "exti"] }
embassy-time = "=0.5.1"
embedded-hal-async = "=1.0.0"
embedded-hal-bus = { version = "=0.3.0", features = ["async"] }
embedded-io-async = "=0.7.0"
lora-phy = "=3.0.1"
one-wire-bus = "=0.1.1"
panic-probe = "=1.0.0"
