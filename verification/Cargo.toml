[package]
name = "retina_style_core"
version = "0.1.0"
edition = "2021"
publish = false

[dependencies]
cssparser = "=0.31.2"
log = "=0.4.35"
url = "2"
