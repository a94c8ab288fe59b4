[package]
name = "ode_solvers"
version = "0.1.0"
edition = "2021"
publish = false

[dependencies]
nalgebra = "0.32"
num-traits = "0.2"
simba = "0.8"
