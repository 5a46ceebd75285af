[package]
name = "winnow_regex"
version = "0.1.0"
edition = "2021"
publish = false

[dependencies]
regex = "1"
winnow = "0.7"
