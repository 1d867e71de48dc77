[package]
name = "multidevice"
version = "0.1.0"
edition = "2021"
publish = false

[dependencies]
heapless = "=0.8.0"
libm = "=0.2.16"
embassy-executor = "=0.9.1"
embassy-stm32 = { version = "=0.4.0", features = ["stm32f103c8", "time-driver-any", "exti", "memory-x"] }
embassy-sync = "=0.7.2"
embassy-time = "=0.5.1"
embedded-graphics = "=0.8.2"
ssd1306 = "=0.10.0"
static_cell = "=2.1.1"
defmt = "=1.2.0"
defmt-rtt = "=1.3.1"
panic-halt = "=1.0.0"
