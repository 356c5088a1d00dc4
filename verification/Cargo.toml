[package]
name = "pdfpackman"
version = "0.1.0"
edition = "2021"
publish = false

[dependencies]
getopts = "0.2"
image = "0.23"
printpdf = { version = "0.3", features = ["embedded_images"] }
