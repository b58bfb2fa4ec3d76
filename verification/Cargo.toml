[package]
name = "pomo_nrf"
version = "0.1.0"
edition = "2021"
publish = false

[dependencies]
sfsm = "0.4"
defmt = "*"
fugit = "0.3"
nrf52840-hal = "*"
rtic = { version = "2", features = ["thumbv7-backend"] }
rtic-monotonics = { version = "1", features = ["nrf52840"] }
