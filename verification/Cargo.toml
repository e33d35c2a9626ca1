[package]
name = "eureka"
version = "0.1.0"
edition = "2021"
publish = false

[dependencies]
dirs = "*"
git2 = "*"
termcolor = "*"
