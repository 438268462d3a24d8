[package]
name = "lpc8xx_hal"
version = "0.1.0"
edition = "2021"
publish = false

[dependencies]
embedded-hal = "=0.2.7"
lpc845-pac = "*"
nb = "=0.1.3"
void = { version = "=1.0.2", default-features = false }
