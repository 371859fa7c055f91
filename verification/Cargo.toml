[package]
name = "orecchiette-sdr-usrp"
version = "0.1.0"
edition = "2021"
publish = false

[dependencies]
crossbeam = "=0.8.5"
num-complex = "=0.4.6"
tracing = "=0.1.44"
uhd = "=0.3.0"
