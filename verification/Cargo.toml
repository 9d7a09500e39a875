[package]
name = "rtc_calendar"
version = "0.1.0"
edition = "2021"
publish = false

[dependencies]
chrono = { version = "=0.4.45", default-features = false }
heapless = "=0.8.0"
embassy-time = { version = "=0.4.0", features = ["tick-hz-1_000_000"] }
embassy-sync = "=0.7.2"
embassy-executor = { version = "=0.8.0", features = ["arch-std", "executor-thread"] }
embassy-stm32 = { version = "=0.3.0", features = ["stm32f103c8", "time-driver-any", "exti"] }
embedded-graphics = "=0.8.2"
ssd1306 = "=0.10.0"
defmt = "1"
defmt-rtt = "1"
