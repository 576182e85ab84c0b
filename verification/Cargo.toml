[package]
name = "csv_to_ason"
version = "0.1.0"
edition = "2021"

[dependencies]
ason = "*"
csv = "*"
