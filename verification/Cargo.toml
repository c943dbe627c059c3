[package]
name = "step_sequencer"
version = "0.1.0"
edition = "2021"
publish = false

[dependencies]
smart-leds = "0.3"
ws2812-spi = "0.4"
embedded-hal = "0.2"
nb = "0.1"
