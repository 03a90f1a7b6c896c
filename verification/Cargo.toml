[package]
name = "mlx_engine"
version = "0.1.0"
edition = "2021"
publish = false

[dependencies]
gethostname = "*"
shm = "*"
x11 = "*"
