[package]
name = "xmip-core-authenticate-windows"
version = "0.1.0"
edition = "2021"
publish = false
