[package]
name = "highlighter"
version = "0.1.0"
edition = "2021"
publish = false

[dependencies]
mlua = { version = "=0.10.5", features = ["luajit", "vendored"] }
nvim-oxi = { version = "=0.6.0", features = ["mlua", "neovim-0-11"] }
