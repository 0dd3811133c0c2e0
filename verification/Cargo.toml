[package]
name = "tower_minify_html"
version = "0.1.0"
edition = "2021"
publish = false

[dependencies]
minify-html = "*"
minify-html-onepass = "*"
http = "*"
bytes = "*"
http-body-util = "*"
tower = "*"
tracing = "*"
