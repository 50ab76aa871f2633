[package]
name = "msp430fr2x5x_hal"
version = "0.1.0"
edition = "2021"
publish = false

[dependencies]
embedded-hal = { version = "=0.2.7", features = ["unproven"] }
msp430fr2355 = "=0.6.1"
msp430fr247x = "=0.3.3"
nb = "=1.1.0"
void = "=1.0.2"
