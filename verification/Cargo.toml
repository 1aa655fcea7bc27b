[package]
name = "datatest_stable"
version = "0.1.0"
edition = "2021"
publish = false

[dependencies]
camino = "*"
fancy-regex = "*"
include_dir = "*"
libtest-mimic = "*"
walkdir = "*"
