[package]
name = "rad"
version = "0.5.0"
edition = "2021"
publish = false

[dependencies]
ceph = "*"
chrono = "0.4"
ffi-pool = "*"
futures = "0.3"
lazy_static = "1"
libc = "0.2"
stable_deref_trait = "1"
