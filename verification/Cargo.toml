[package]
name = "pix2depth"
version = "0.1.0"
edition = "2021"
publish = false

[dependencies]
softfp = "=0.1.0"
candle-core = "=0.11.0"
anyhow = "=1.0.104"
del-msh-core = "=0.1.39"

[dev-dependencies]
del-geo-core = "=0.1.34"
