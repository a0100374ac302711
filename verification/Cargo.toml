[package]
name = "parse_mediawiki_dump"
version = "2.0.0"
edition = "2021"
publish = false

[dependencies]
quick-xml = "=0.36.2"
