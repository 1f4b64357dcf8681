[package]
name = "novel_epub"
version = "0.1.0"
edition = "2021"
publish = false

[dependencies]
epub-builder = "*"
scraper = "*"
