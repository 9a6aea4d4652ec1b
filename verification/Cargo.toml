[package]
name = "conquest"
version = "0.1.0"
edition = "2021"
publish = false

[dependencies]
rand = "0.8"
itertools = "0.11"
ndarray = "0.15"
ndarray-rand = "0.14"
rand_distr = "0.4"
num_cpus = "1"
threadpool = "1"
