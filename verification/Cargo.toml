[package]
name = "lcd_flush"
version = "0.1.0"
edition = "2021"
publish = false

[dependencies]
embedded-graphics = "0.8"
embedded-graphics-framebuf = "*"
mipidsi = "0.7"
display-interface-spi = "0.4"
log = "0.4"
