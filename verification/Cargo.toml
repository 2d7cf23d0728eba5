[package]
name = "film_meta"
version = "0.1.0"
edition = "2021"
publish = false

[dependencies]
regex = "=1.13.1"
scraper = "=0.29.0"
reqwest = "0.12"
poise = "0.6"
