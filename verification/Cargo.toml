[package]
name = "rkyv_intern"
version = "0.1.0"
edition = "2021"

[dependencies]
hashbrown = "0.14"
rkyv = "0.8"
