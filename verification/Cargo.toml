[package]
name = "pm_plot_helpers"
version = "0.1.0"
edition = "2021"
publish = false

[dependencies]
epaint = "*"
