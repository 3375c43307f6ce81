[package]
name = "nonik0"
version = "0.1.0"
edition = "2021"
publish = false

[dependencies]
heapless = "0.8"
random-trait = "*"
hcms-29xx = "*"
embedded-hal = "1"
avr-device = "*"
ufmt = "*"
static_cell = "*"
bitflags = "*"
avr-progmem = "*"
panic-halt = "*"
