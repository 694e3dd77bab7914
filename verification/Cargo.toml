[package]
name = "sett"
version = "0.1.0"
edition = "2021"
publish = false

[dependencies]
anyhow = "=1.0.104"
itertools = "=0.15.0"
nalgebra = "=0.35.0"
ode_solvers = "=0.6.2"
