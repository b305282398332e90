[package]
name = "sortable"
version = "0.1.0"
edition = "2021"
publish = false

[dependencies]
dioxus = "0.5"
